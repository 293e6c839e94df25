//! The settings of the program itself.

use vstd::prelude::*;

use crate::error::{Error, ErrorView};
use crate::helper::{
    directory_among, expand_home, find_directory, home_expanded, known_places, optional_texts,
    FoundDirectory, FoundDirectoryView,
};
use crate::paths::{join, joined};
use crate::text::{clone_text, text_of, texts};

verus! {

/// Whether the whole system is configured, or the account of one user.
#[derive(Clone, Copy, Debug, PartialEq, Eq, Structural)]
pub enum Mode {
    User,
    System,
}

/// The settings as the configuration file gives them: whatever it leaves
/// out is `None`.
#[derive(Debug)]
pub struct RawConfiguration {
    /// The name of the machine.
    pub name: Option<String>,
    /// The directory that holds the hosts and groups.
    pub bois_dir: Option<String>,
    /// The directory that files are deployed to.
    pub target_dir: Option<String>,
    /// The directory that the state of the last deployment is kept in.
    pub cache_dir: Option<String>,
    pub runtime_dir: Option<String>,
    /// Environment variables for the programs that templates call.
    pub envs: Vec<(String, String)>,
    pub mode: Option<Mode>,
}

/// The settings of a run, each with its value.
#[derive(Debug)]
pub struct Configuration {
    /// The name of the machine.
    pub name: String,
    /// The directory that holds the hosts and groups.
    pub bois_dir: String,
    /// The directory that files are deployed to.
    pub target_dir: String,
    /// The directory that the state of the last deployment is kept in.
    pub cache_dir: String,
    pub runtime_dir: String,
    /// Environment variables for the programs that templates call.
    pub envs: Vec<(String, String)>,
    pub mode: Mode,
}

/// The mathematical value of a [`Configuration`].
pub struct ConfigurationView {
    pub name: Seq<char>,
    pub bois_dir: Seq<char>,
    pub target_dir: Seq<char>,
    pub cache_dir: Seq<char>,
    pub runtime_dir: Seq<char>,
    pub envs: Seq<(Seq<char>, Seq<char>)>,
    pub mode: Mode,
}

/// The characters of each pair of a list.
pub open spec fn pairs(list: Seq<(String, String)>) -> Seq<(Seq<char>, Seq<char>)> {
    list.map_values(|pair: (String, String)| (pair.0@, pair.1@))
}

impl View for Configuration {
    type V = ConfigurationView;

    open spec fn view(&self) -> ConfigurationView {
        ConfigurationView {
            name: self.name@,
            bois_dir: self.bois_dir@,
            target_dir: self.target_dir@,
            cache_dir: self.cache_dir@,
            runtime_dir: self.runtime_dir@,
            envs: pairs(self.envs@),
            mode: self.mode,
        }
    }
}

/// A copy of a list of pairs.
pub fn clone_pairs(list: &Vec<(String, String)>) -> (copy: Vec<(String, String)>)
    ensures
        pairs(copy@) == pairs(list@),
{
    let mut copy: Vec<(String, String)> = Vec::new();
    let mut index: usize = 0;
    while index < list.len()
        invariant
            index <= list.len(),
            copy.len() == index,
            forall|i: int|
                0 <= i < index ==> (#[trigger] copy@[i]).0@ == list@[i].0@ && copy@[i].1@
                    == list@[i].1@,
        decreases list.len() - index,
    {
        copy.push((list[index].0.clone(), list[index].1.clone()));
        index += 1;
    }
    assert(pairs(copy@) =~= pairs(list@));
    copy
}

impl Clone for Configuration {
    fn clone(&self) -> (copy: Configuration)
        ensures
            copy@ == self@,
    {
        Configuration {
            name: self.name.clone(),
            bois_dir: self.bois_dir.clone(),
            target_dir: self.target_dir.clone(),
            cache_dir: self.cache_dir.clone(),
            runtime_dir: self.runtime_dir.clone(),
            envs: clone_pairs(&self.envs),
            mode: self.mode,
        }
    }
}

impl RawConfiguration {
    /// The mode that the configuration file asks for, or `Mode::System`.
    pub fn mode(&self) -> (mode: Mode)
        ensures
            mode == match self.mode {
                Some(mode) => mode,
                None => Mode::System,
            },
    {
        match self.mode {
            Some(mode) => mode,
            None => Mode::System,
        }
    }
}


/// What the machine says of itself and of the account of the run.
#[derive(Debug)]
pub struct Environment {
    /// The name of the machine, where it has one.
    pub hostname: Option<String>,
    /// The name of the user of the run.
    pub username: String,
    pub home_dir: Option<String>,
    pub config_dir: Option<String>,
    pub cache_dir: Option<String>,
    pub runtime_dir: Option<String>,
    /// The directories that exist, among those that the settings may fall
    /// back to.
    pub existing: Vec<String>,
}

/// The settings of a run together with the directories that are to be made
/// before the run uses them.
#[derive(Debug)]
pub struct BuiltConfiguration {
    pub configuration: Configuration,
    pub create: Vec<String>,
}

/// A path below a directory that may be unknown.
pub open spec fn place_in(base: Option<String>, name: Seq<char>) -> Option<Seq<char>> {
    match base {
        Some(base) => Some(joined(base@, name)),
        None => None,
    }
}

/// The places where the configuration of a user is looked for.
pub open spec fn bois_places(env: Environment) -> Seq<Option<Seq<char>>> {
    seq![
        place_in(env.config_dir, "dotfiles"@),
        place_in(env.config_dir, "bois"@),
        place_in(env.home_dir, ".dotfiles"@),
        place_in(env.home_dir, ".dots"@),
        place_in(env.home_dir, ".bois"@),
    ]
}

/// The places that the files of a user are deployed to.
pub open spec fn target_places(env: Environment) -> Seq<Option<Seq<char>>> {
    seq![text_of(env.config_dir), place_in(env.home_dir, ".config"@)]
}

/// The places where the state of the last deployment of a user is kept.
pub open spec fn cache_places(env: Environment) -> Seq<Option<Seq<char>>> {
    seq![place_in(env.cache_dir, "bois"@)]
}

/// The places where a run of a user keeps what it needs while it runs.
pub open spec fn runtime_places(env: Environment) -> Seq<Option<Seq<char>>> {
    seq![place_in(env.runtime_dir, "bois"@), place_in(env.cache_dir, "bois"@)]
}

/// A directory of the settings: the one that is set, with its `~`
/// expanded; else, for a user, the one that is found among the places for
/// it, and for the system a fixed one.
pub open spec fn settled(
    setting: Option<String>,
    mode: Mode,
    places: Seq<Option<Seq<char>>>,
    kind: Seq<char>,
    create_on_missing: bool,
    system_place: Seq<char>,
    env: Environment,
) -> Result<FoundDirectoryView, ErrorView> {
    match setting {
        Some(dir) => Ok(FoundDirectoryView::Existing(home_expanded(dir@, text_of(env.home_dir)))),
        None => match mode {
            Mode::User => directory_among(
                known_places(places),
                texts(env.existing@),
                kind,
                create_on_missing,
            ),
            Mode::System => Ok(FoundDirectoryView::Existing(system_place)),
        },
    }
}

/// The directories of a list that are to be made.
pub open spec fn to_create(found: Seq<FoundDirectoryView>) -> Seq<Seq<char>>
    decreases found.len(),
{
    if found.len() == 0 {
        Seq::empty()
    } else {
        match found.last() {
            FoundDirectoryView::Create(path) => to_create(found.drop_last()).push(path),
            FoundDirectoryView::Existing(_) => to_create(found.drop_last()),
        }
    }
}

impl RawConfiguration {
    /// The name of the machine: the one that is set, or the one that the
    /// machine gives itself.
    pub open spec fn spec_name(self, env: Environment) -> Option<Seq<char>> {
        match self.name {
            Some(name) => Some(name@),
            None => text_of(env.hostname),
        }
    }

    /// The mode of the run: the one that is set, or the one that goes with
    /// the user of the run.
    pub open spec fn spec_run_mode(self, env: Environment) -> Mode {
        match self.mode {
            Some(mode) => mode,
            None => if env.username@ == "root"@ {
                Mode::System
            } else {
                Mode::User
            },
        }
    }

    /// The four directories of the settings, in the order in which they are
    /// settled, up to the first that cannot be.
    pub open spec fn spec_directories(self, env: Environment) -> Seq<
        Result<FoundDirectoryView, ErrorView>,
    > {
        let mode = self.spec_run_mode(env);
        seq![
            settled(self.bois_dir, mode, bois_places(env), "bois config"@, false, "/etc/bois"@, env),
            settled(self.target_dir, mode, target_places(env), "target"@, true, "/etc/bois"@, env),
            settled(
                self.cache_dir,
                mode,
                cache_places(env),
                "bois cache"@,
                true,
                "/var/lib/bois"@,
                env,
            ),
            settled(
                self.runtime_dir,
                mode,
                runtime_places(env),
                "bois runtime"@,
                true,
                "/var/lib/bois"@,
                env,
            ),
        ]
    }

    /// The settings of the run, and the directories to make for them.
    pub open spec fn spec_build(self, env: Environment) -> Result<
        (ConfigurationView, Seq<Seq<char>>),
        ErrorView,
    > {
        let directories = self.spec_directories(env);
        match self.spec_name(env) {
            None => Err(ErrorView::NoHostname),
            Some(name) => match (directories[0], directories[1], directories[2], directories[3]) {
                (Err(error), _, _, _) => Err(error),
                (Ok(_), Err(error), _, _) => Err(error),
                (Ok(_), Ok(_), Err(error), _) => Err(error),
                (Ok(_), Ok(_), Ok(_), Err(error)) => Err(error),
                (Ok(bois), Ok(target), Ok(cache), Ok(runtime)) => Ok(
                    (
                        ConfigurationView {
                            name,
                            bois_dir: bois.path(),
                            target_dir: target.path(),
                            cache_dir: cache.path(),
                            runtime_dir: runtime.path(),
                            envs: pairs(self.envs@),
                            mode: self.spec_run_mode(env),
                        },
                        to_create(seq![bois, target, cache, runtime]),
                    ),
                ),
            },
        }
    }

    /// Fills in what the configuration file leaves out.
    ///
    /// The name of the machine falls back to the one that the machine
    /// gives itself, the mode to the one that goes with the user: the
    /// system for `root`, the account of the user for everybody else.
    /// Each directory that is not set is looked for in the places for it;
    /// for the system each has its fixed place. Directories that were
    /// found missing and may be made are listed for the caller to make.
    pub fn build_configuration(self, env: &Environment) -> (result: Result<BuiltConfiguration, Error>)
        ensures
            match self.spec_build(*env) {
                Ok(built) => result matches Ok(found) && found.configuration@ == built.0 && texts(
                    found.create@,
                ) == built.1,
                Err(error) => result matches Err(found) && found@ == error,
            },
    {
        let name = match &self.name {
            Some(name) => name.clone(),
            None => match &env.hostname {
                Some(hostname) => hostname.clone(),
                None => {
                    return Err(Error::NoHostname);
                },
            },
        };
        let mode = match self.mode {
            Some(mode) => mode,
            None => if env.username == String::from_str("root") {
                Mode::System
            } else {
                Mode::User
            },
        };
        let mut create: Vec<String> = Vec::new();
        proof {
            assert(texts(create@) =~= Seq::empty());
            assert(to_create(Seq::empty()) =~= Seq::empty());
        }
        let bois_places = bois_directories(env);
        let bois_dir = match settle(
            &self.bois_dir,
            mode,
            &bois_places,
            "bois config",
            false,
            "/etc/bois",
            env,
            &mut create,
            Ghost(Seq::empty()),
        ) {
            Ok(path) => path,
            Err(error) => {
                return Err(error);
            },
        };
        let ghost bois = self.spec_directories(*env)[0]->Ok_0;
        let ghost settled_one = seq![bois];
        let target_places = target_directories(env);
        let target_dir = match settle(
            &self.target_dir,
            mode,
            &target_places,
            "target",
            true,
            "/etc/bois",
            env,
            &mut create,
            Ghost(settled_one),
        ) {
            Ok(path) => path,
            Err(error) => {
                return Err(error);
            },
        };
        let ghost target = self.spec_directories(*env)[1]->Ok_0;
        let ghost settled_two = seq![bois, target];
        assert(settled_one.push(target) =~= settled_two);
        let cache_places = cache_directories(env);
        let cache_dir = match settle(
            &self.cache_dir,
            mode,
            &cache_places,
            "bois cache",
            true,
            "/var/lib/bois",
            env,
            &mut create,
            Ghost(settled_two),
        ) {
            Ok(path) => path,
            Err(error) => {
                return Err(error);
            },
        };
        let ghost cache = self.spec_directories(*env)[2]->Ok_0;
        let ghost settled_three = seq![bois, target, cache];
        assert(settled_two.push(cache) =~= settled_three);
        let runtime_places = runtime_directories(env);
        let runtime_dir = match settle(
            &self.runtime_dir,
            mode,
            &runtime_places,
            "bois runtime",
            true,
            "/var/lib/bois",
            env,
            &mut create,
            Ghost(settled_three),
        ) {
            Ok(path) => path,
            Err(error) => {
                return Err(error);
            },
        };
        proof {
            let runtime = self.spec_directories(*env)[3]->Ok_0;
            assert(settled_three.push(runtime) =~= seq![bois, target, cache, runtime]);
        }
        Ok(
            BuiltConfiguration {
                configuration: Configuration {
                    name,
                    bois_dir,
                    target_dir,
                    cache_dir,
                    runtime_dir,
                    envs: clone_pairs(&self.envs),
                    mode,
                },
                create,
            },
        )
    }
}

/// The places where the configuration of a user is looked for.
pub fn bois_directories(env: &Environment) -> (places: Vec<Option<String>>)
    ensures
        optional_texts(places@) == bois_places(*env),
{
    let mut places: Vec<Option<String>> = Vec::new();
    places.push(below(&env.config_dir, "dotfiles"));
    places.push(below(&env.config_dir, "bois"));
    places.push(below(&env.home_dir, ".dotfiles"));
    places.push(below(&env.home_dir, ".dots"));
    places.push(below(&env.home_dir, ".bois"));
    assert(optional_texts(places@) =~= bois_places(*env));
    places
}

/// The places that the files of a user are deployed to.
pub fn target_directories(env: &Environment) -> (places: Vec<Option<String>>)
    ensures
        optional_texts(places@) == target_places(*env),
{
    let mut places: Vec<Option<String>> = Vec::new();
    places.push(clone_text(&env.config_dir));
    places.push(below(&env.home_dir, ".config"));
    assert(optional_texts(places@) =~= target_places(*env));
    places
}

/// The places where the state of the last deployment of a user is kept.
pub fn cache_directories(env: &Environment) -> (places: Vec<Option<String>>)
    ensures
        optional_texts(places@) == cache_places(*env),
{
    let mut places: Vec<Option<String>> = Vec::new();
    places.push(below(&env.cache_dir, "bois"));
    assert(optional_texts(places@) =~= cache_places(*env));
    places
}

/// The places where a run of a user keeps what it needs while it runs.
pub fn runtime_directories(env: &Environment) -> (places: Vec<Option<String>>)
    ensures
        optional_texts(places@) == runtime_places(*env),
{
    let mut places: Vec<Option<String>> = Vec::new();
    places.push(below(&env.runtime_dir, "bois"));
    places.push(below(&env.cache_dir, "bois"));
    assert(optional_texts(places@) =~= runtime_places(*env));
    places
}

/// A path below a directory that may be unknown.
fn below(base: &Option<String>, name: &str) -> (place: Option<String>)
    ensures
        text_of(place) == place_in(*base, name@),
{
    match base {
        Some(base) => Some(join(base.as_str(), name)),
        None => None,
    }
}

/// Settles one directory of the settings, and notes it where it is to be made.
fn settle(
    setting: &Option<String>,
    mode: Mode,
    places: &Vec<Option<String>>,
    kind: &str,
    create_on_missing: bool,
    system_place: &str,
    env: &Environment,
    create: &mut Vec<String>,
    Ghost(before): Ghost<Seq<FoundDirectoryView>>,
) -> (result: Result<String, Error>)
    requires
        texts(old(create)@) == to_create(before),
    ensures
        match settled(
            *setting,
            mode,
            optional_texts(places@),
            kind@,
            create_on_missing,
            system_place@,
            *env,
        ) {
            Ok(directory) => result matches Ok(path) && path@ == directory.path() && texts(
                final(create)@,
            ) == to_create(before.push(directory)),
            Err(error) => result matches Err(found) && found@ == error,
        },
{
    match setting {
        Some(dir) => {
            let path = expand_home(dir.as_str(), &env.home_dir);
            proof {
                assert(before.push(FoundDirectoryView::Existing(path@)).drop_last() =~= before);
            }
            Ok(path)
        },
        None => match mode {
            Mode::User => match find_directory(places, &env.existing, kind, create_on_missing) {
                Ok(FoundDirectory::Existing(path)) => {
                    proof {
                        assert(before.push(FoundDirectoryView::Existing(path@)).drop_last()
                            =~= before);
                    }
                    Ok(path)
                },
                Ok(FoundDirectory::Create(path)) => {
                    let ghost noted = create@;
                    create.push(path.clone());
                    proof {
                        assert(before.push(FoundDirectoryView::Create(path@)).drop_last()
                            =~= before);
                        assert(texts(create@) =~= texts(noted).push(path@));
                    }
                    Ok(path)
                },
                Err(error) => Err(error),
            },
            Mode::System => {
                proof {
                    assert(before.push(FoundDirectoryView::Existing(system_place@)).drop_last()
                        =~= before);
                }
                Ok(String::from_str(system_place))
            },
        },
    }
}

} // verus!
