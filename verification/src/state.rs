//! The desired state of one machine and the pieces it is assembled from.

use vstd::prelude::*;

use crate::changeset::{chain, views};
use crate::config::bois::{Configuration, ConfigurationView};
use crate::error::{Error, ErrorView};
use crate::handlers::packages::{
    add_names, distinct, lemma_distinct, lemma_selected_contains, lemma_selected_is_set, names_of,
    names_or_none, select_names, selected, PackageManager, PackageSets, PackageSetsView,
};
use crate::state::group::{Group, GroupView};
use crate::state::host::{Host, HostView};
use crate::system_state::{SystemState, SystemStateView};
use crate::text::{contains_text, texts};

pub mod directory;
pub mod file;
pub mod file_parser;
pub mod group;
pub mod host;
pub mod source;

verus! {

/// Everything that is to be on one machine: the entries and packages of its
/// host and of the groups the host takes part in.
#[derive(Debug)]
pub struct State {
    pub host: Host,
    /// The settings of the run that built this state. They are kept with
    /// it, so that a later run knows where this one deployed to.
    pub configuration: Configuration,
    /// The packages that are to be installed, for each package manager:
    /// those of the host and of every group, package groups replaced by
    /// their packages.
    pub packages: PackageSets,
}

/// The mathematical value of a [`State`].
pub struct StateView {
    pub host: HostView,
    pub configuration: ConfigurationView,
    pub packages: PackageSetsView,
}

impl View for State {
    type V = StateView;

    open spec fn view(&self) -> StateView {
        StateView {
            host: self.host@,
            configuration: self.configuration@,
            packages: self.packages@,
        }
    }
}


// ---------------------------------------------------------------------------
// The groups of a host
// ---------------------------------------------------------------------------

/// The first name, from `from` on, at which the groups that a host names
/// and the groups at hand part: a name without its group, or the name of a
/// group that was not asked for. `None` where each name has its group.
pub open spec fn first_unresolved(names: Seq<Seq<char>>, groups: Seq<GroupView>, from: int) -> Option<
    Seq<char>,
>
    decreases names.len() + groups.len() - from,
{
    if from < 0 || (from >= names.len() && from >= groups.len()) {
        None
    } else if from >= groups.len() {
        Some(names[from])
    } else if from >= names.len() {
        Some(groups[from].name)
    } else if names[from] != groups[from].name {
        Some(names[from])
    } else {
        first_unresolved(names, groups, from + 1)
    }
}

// ---------------------------------------------------------------------------
// The packages of a state
// ---------------------------------------------------------------------------

/// The packages declared so far together with those of one more scope. A
/// scope that has no set for the manager adds nothing; a package that was
/// declared before is not declared again.
pub open spec fn with_scope(before: Option<Seq<Seq<char>>>, scope: Option<Seq<Seq<char>>>) -> Option<
    Seq<Seq<char>>,
> {
    match scope {
        None => before,
        Some(names) => Some(distinct(names_or_none(before) + names)),
    }
}

/// The packages declared so far together with those of the groups of a list.
pub open spec fn with_groups(
    before: Option<Seq<Seq<char>>>,
    groups: Seq<GroupView>,
    manager: PackageManager,
) -> Option<Seq<Seq<char>>>
    decreases groups.len(),
{
    if groups.len() == 0 {
        before
    } else {
        with_scope(
            with_groups(before, groups.drop_last(), manager),
            groups.last().config.packages.get(manager),
        )
    }
}

/// The packages that a host and its groups declare for a manager, each
/// once, in the order in which they are declared: those of the host first,
/// then those of each group. `None` where nobody declares a set for the manager.
pub open spec fn declared(host: HostView, manager: PackageManager) -> Option<Seq<Seq<char>>> {
    with_groups(with_scope(None, host.config.packages.get(manager)), host.groups, manager)
}

/// The packages that the package groups among `names` stand for, group
/// after group. A name is a package group where the live system has a
/// group of that name installed.
pub open spec fn members_of(
    names: Seq<Seq<char>>,
    groups: Seq<Seq<char>>,
    system: SystemStateView,
    manager: PackageManager,
) -> Result<Seq<Seq<char>>, ErrorView>
    decreases names.len(),
{
    if names.len() == 0 {
        Ok(Seq::empty())
    } else {
        chain(
            members_of(names.drop_last(), groups, system, manager),
            if groups.contains(names.last()) {
                match system.members(manager, names.last()) {
                    Some(packages) => Ok(packages),
                    None => Err(ErrorView::GroupMembersNotLoaded(manager, names.last())),
                }
            } else {
                Ok(Seq::empty())
            },
        )
    }
}

/// The packages that are to be installed for a manager: the declared ones
/// and those that the package groups among them stand for, without the
/// names of package groups.
pub open spec fn compiled(host: HostView, system: SystemStateView, manager: PackageManager) -> Result<
    Option<Seq<Seq<char>>>,
    ErrorView,
> {
    match declared(host, manager) {
        None => Ok(None),
        Some(names) => match system.detected_package_groups.get(manager) {
            None => Err(ErrorView::GroupsNotLoaded(manager)),
            Some(groups) => match members_of(names, groups, system, manager) {
                Err(error) => Err(error),
                Ok(members) => Ok(Some(selected(distinct(names + members), groups, None))),
            },
        },
    }
}

/// The packages that are to be installed, for each manager.
pub open spec fn compiled_packages(host: HostView, system: SystemStateView) -> Result<
    PackageSetsView,
    ErrorView,
> {
    match compiled(host, system, PackageManager::Pacman) {
        Err(error) => Err(error),
        Ok(pacman) => match compiled(host, system, PackageManager::Paru) {
            Err(error) => Err(error),
            Ok(paru) => match compiled(host, system, PackageManager::Apt) {
                Err(error) => Err(error),
                Ok(apt) => Ok(PackageSetsView { pacman, paru, apt }),
            },
        },
    }
}

/// What keeps the members of the first names of a list from being found
/// keeps those of the whole list from being found.
pub proof fn lemma_members_of_error(
    names: Seq<Seq<char>>,
    groups: Seq<Seq<char>>,
    system: SystemStateView,
    manager: PackageManager,
    count: int,
)
    requires
        0 <= count <= names.len(),
        members_of(names.take(count), groups, system, manager) is Err,
    ensures
        members_of(names, groups, system, manager) == members_of(
            names.take(count),
            groups,
            system,
            manager,
        ),
    decreases names.len() - count,
{
    if count < names.len() {
        assert(names.take(count + 1).drop_last() =~= names.take(count));
        lemma_members_of_error(names, groups, system, manager, count + 1);
    } else {
        assert(names.take(count) =~= names);
    }
}

/// The packages to install for a manager are a set, and none of them is
/// the name of a package group that is installed on the live system.
pub proof fn law_compiled_packages_hold_no_group(
    host: HostView,
    system: SystemStateView,
    manager: PackageManager,
)
    requires
        compiled(host, system, manager) matches Ok(Some(_)),
    ensures
        ({
            let names = compiled(host, system, manager)->Ok_0.unwrap();
            let groups = system.detected_package_groups.get(manager).unwrap();
            &&& names.no_duplicates()
            &&& forall|name: Seq<char>| names.contains(name) ==> !groups.contains(name)
        }),
{
    let declared = declared(host, manager).unwrap();
    let groups = system.detected_package_groups.get(manager).unwrap();
    let members = members_of(declared, groups, system, manager)->Ok_0;
    let all = distinct(declared + members);
    lemma_distinct(declared + members);
    lemma_selected_is_set(all, groups, None);
    assert forall|name: Seq<char>| selected(all, groups, None).contains(name) implies !groups.contains(
        name,
    ) by {
        lemma_selected_contains(all, groups, None, name);
    }
}

/// The packages that a host and its groups declare for a manager.
fn declared_packages(host: &Host, manager: PackageManager) -> (names: Option<Vec<String>>)
    ensures
        names_of(names) == declared(host@, manager),
        names matches Some(names) ==> texts(names@).no_duplicates(),
{
    let mut known: Vec<String> = Vec::new();
    let mut any = false;
    proof {
        assert(texts(known@) =~= Seq::empty());
    }
    match host.config.packages.get(manager) {
        Some(names) => {
            add_names(&mut known, names);
            any = true;
        },
        None => {},
    }
    let ghost groups = host@.groups;
    let ghost start = with_scope(None, host@.config.packages.get(manager));
    let mut index: usize = 0;
    proof {
        assert(groups.take(0) =~= Seq::empty());
    }
    while index < host.groups.len()
        invariant
            index <= host.groups.len(),
            groups == views(host.groups@),
            texts(known@).no_duplicates(),
            any == with_groups(start, groups.take(index as int), manager) is Some,
            any ==> with_groups(start, groups.take(index as int), manager) == Some(texts(known@)),
            !any ==> texts(known@) == Seq::<Seq<char>>::empty(),
        decreases host.groups.len() - index,
    {
        proof {
            assert(groups.take(index + 1).drop_last() =~= groups.take(index as int));
            assert(groups.take(index + 1).last() == host.groups@[index as int]@);
        }
        match host.groups[index].config.packages.get(manager) {
            Some(names) => {
                add_names(&mut known, names);
                any = true;
            },
            None => {},
        }
        index += 1;
    }
    proof {
        assert(groups.take(index as int) =~= groups);
    }
    if any {
        Some(known)
    } else {
        None
    }
}

/// The packages to install for a manager.
fn compile_manager(host: &Host, system_state: &SystemState, manager: PackageManager) -> (result:
    Result<Option<Vec<String>>, Error>)
    ensures
        match compiled(host@, system_state@, manager) {
            Ok(names) => result matches Ok(found) && names_of(found) == names,
            Err(error) => result matches Err(found) && found@ == error,
        },
{
    let mut names = match declared_packages(host, manager) {
        Some(names) => names,
        None => {
            return Ok(None);
        },
    };
    let groups = match system_state.detected_package_groups.get(manager) {
        Some(groups) => groups,
        None => {
            return Err(Error::GroupsNotLoaded(manager));
        },
    };
    let ghost wanted = declared(host@, manager);
    let ghost declared = texts(names@);
    let mut members: Vec<String> = Vec::new();
    let mut index: usize = 0;
    proof {
        assert(declared.take(0) =~= Seq::empty());
        assert(texts(members@) =~= Seq::empty());
    }
    while index < names.len()
        invariant
            index <= names.len(),
            declared == texts(names@),
            wanted == Some(declared),
            wanted == crate::state::declared(host@, manager),
            system_state@.detected_package_groups.get(manager) == Some(texts(groups@)),
            members_of(declared.take(index as int), texts(groups@), system_state@, manager) == Ok::<
                Seq<Seq<char>>,
                ErrorView,
            >(texts(members@)),
        decreases names.len() - index,
    {
        proof {
            assert(declared.take(index + 1).drop_last() =~= declared.take(index as int));
            assert(declared.take(index + 1).last() == names@[index as int]@);
        }
        if contains_text(groups, &names[index]) {
            match system_state.group_packages(manager, &names[index]) {
                Some(packages) => {
                    let mut packages = packages;
                    proof {
                        assert(texts(members@ + packages@) =~= texts(members@) + texts(packages@));
                    }
                    members.append(&mut packages);
                },
                None => {
                    proof {
                        lemma_members_of_error(
                            declared,
                            texts(groups@),
                            system_state@,
                            manager,
                            index + 1,
                        );
                    }
                    return Err(Error::GroupMembersNotLoaded(manager, names[index].clone()));
                },
            }
        } else {
            assert(texts(members@) + Seq::<Seq<char>>::empty() =~= texts(members@));
        }
        index += 1;
    }
    proof {
        assert(declared.take(index as int) =~= declared);
    }
    add_names(&mut names, &members);
    Ok(Some(select_names(&names, groups, None)))
}

/// A package that a group declares although the host, or a group before
/// it, has declared it already.
#[derive(Debug)]
pub struct DuplicatePackage {
    pub manager: PackageManager,
    pub name: String,
    /// The group that declares the package again.
    pub group: String,
}

/// The mathematical value of a [`DuplicatePackage`].
pub struct DuplicatePackageView {
    pub manager: PackageManager,
    pub name: Seq<char>,
    pub group: Seq<char>,
}

impl View for DuplicatePackage {
    type V = DuplicatePackageView;

    open spec fn view(&self) -> DuplicatePackageView {
        DuplicatePackageView { manager: self.manager, name: self.name@, group: self.group@ }
    }
}

/// The packages of a list that a group declares again.
pub open spec fn duplicates_of(manager: PackageManager, group: Seq<char>, names: Seq<Seq<char>>) -> Seq<
    DuplicatePackageView,
> {
    names.map_values(|name: Seq<char>| DuplicatePackageView { manager, name, group })
}

/// The packages that the groups of a list declare again, group after group:
/// those of each group that were declared before the group, by the host
/// or by a group before it.
pub open spec fn group_duplicates(
    before: Option<Seq<Seq<char>>>,
    groups: Seq<GroupView>,
    manager: PackageManager,
) -> Seq<DuplicatePackageView>
    decreases groups.len(),
{
    if groups.len() == 0 {
        Seq::empty()
    } else {
        group_duplicates(before, groups.drop_last(), manager) + match groups.last().config.packages.get(
            manager,
        ) {
            None => Seq::empty(),
            Some(names) => duplicates_of(
                manager,
                groups.last().name,
                selected(
                    names,
                    Seq::empty(),
                    Some(names_or_none(with_groups(before, groups.drop_last(), manager))),
                ),
            ),
        }
    }
}

/// The packages of one manager that are declared more than once.
pub open spec fn duplicates(host: HostView, manager: PackageManager) -> Seq<DuplicatePackageView> {
    group_duplicates(with_scope(None, host.config.packages.get(manager)), host.groups, manager)
}

/// The packages of one manager that are declared more than once.
fn manager_duplicates(host: &Host, manager: PackageManager) -> (found: Vec<DuplicatePackage>)
    ensures
        views(found@) == duplicates(host@, manager),
{
    let mut known: Vec<String> = Vec::new();
    proof {
        assert(texts(known@) =~= Seq::empty());
    }
    match host.config.packages.get(manager) {
        Some(names) => {
            add_names(&mut known, names);
        },
        None => {},
    }
    let ghost groups = host@.groups;
    let ghost start = with_scope(None, host@.config.packages.get(manager));
    let mut found: Vec<DuplicatePackage> = Vec::new();
    let mut index: usize = 0;
    let none: Vec<String> = Vec::new();
    proof {
        assert(groups.take(0) =~= Seq::empty());
        assert(views(found@) =~= Seq::empty());
        assert(texts(none@) =~= Seq::empty());
    }
    while index < host.groups.len()
        invariant
            index <= host.groups.len(),
            groups == views(host.groups@),
            texts(none@) == Seq::<Seq<char>>::empty(),
            texts(known@).no_duplicates(),
            texts(known@) == names_or_none(with_groups(start, groups.take(index as int), manager)),
            views(found@) == group_duplicates(start, groups.take(index as int), manager),
        decreases host.groups.len() - index,
    {
        proof {
            assert(groups.take(index + 1).drop_last() =~= groups.take(index as int));
            assert(groups.take(index + 1).last() == host.groups@[index as int]@);
        }
        let group = &host.groups[index];
        match group.config.packages.get(manager) {
            Some(names) => {
                let again = select_names(names, &none, Some(&known));
                let mut at: usize = 0;
                let ghost before = views(found@);
                proof {
                    assert(before + duplicates_of(manager, group.name@, texts(again@).take(0))
                        =~= before);
                }
                while at < again.len()
                    invariant
                        at <= again.len(),
                        views(found@) == before + duplicates_of(
                            manager,
                            group.name@,
                            texts(again@).take(at as int),
                        ),
                    decreases again.len() - at,
                {
                    let duplicate = DuplicatePackage {
                        manager,
                        name: again[at].clone(),
                        group: group.name.clone(),
                    };
                    proof {
                        crate::changeset::lemma_views_push(found@, duplicate);
                        assert((before + duplicates_of(
                            manager,
                            group.name@,
                            texts(again@).take(at as int),
                        )).push(duplicate@) =~= before + duplicates_of(
                            manager,
                            group.name@,
                            texts(again@).take(at + 1),
                        ));
                    }
                    found.push(duplicate);
                    at += 1;
                }
                proof {
                    assert(texts(again@).take(at as int) =~= texts(again@));
                }
                add_names(&mut known, names);
            },
            None => {
                assert(views(found@) + Seq::<DuplicatePackageView>::empty() =~= views(found@));
            },
        }
        index += 1;
    }
    proof {
        assert(groups.take(index as int) =~= groups);
    }
    found
}

impl State {
    /// The state of a host with its groups, before its packages are compiled.
    ///
    /// `groups` holds the groups that the host names, in the order in which
    /// it names them: each name is resolved once, here. A name without its
    /// group, or a group that the host does not name, is an error.
    pub fn assemble(configuration: &Configuration, host: Host, groups: Vec<Group>) -> (result: Result<
        State,
        Error,
    >)
        ensures
            match first_unresolved(host@.config.groups, views(groups@), 0) {
                Some(name) => result matches Err(error) && error@ == ErrorView::UnknownGroup(name),
                None => result matches Ok(state) && state@ == (StateView {
                    host: HostView { groups: views(groups@), ..host@ },
                    configuration: configuration@,
                    packages: PackageSetsView::empty(),
                }) && state.host.variables == host.variables,
            },
    {
        let mut index: usize = 0;
        while index < host.config.groups.len() || index < groups.len()
            invariant
                first_unresolved(host@.config.groups, views(groups@), index as int)
                    == first_unresolved(host@.config.groups, views(groups@), 0),
            decreases host.config.groups.len() + groups.len() - index,
        {
            if index >= groups.len() {
                return Err(Error::UnknownGroup(host.config.groups[index].clone()));
            }
            assert(views(groups@)[index as int] == groups@[index as int]@);
            if index >= host.config.groups.len() {
                return Err(Error::UnknownGroup(groups[index].name.clone()));
            }
            if host.config.groups[index] != groups[index].name {
                return Err(Error::UnknownGroup(host.config.groups[index].clone()));
            }
            index += 1;
        }
        let mut host = host;
        host.groups = groups;
        Ok(State { host, configuration: configuration.clone(), packages: PackageSets::new() })
    }

    /// The state of a host with its groups.
    ///
    /// The groups are resolved as [`State::assemble`] resolves them. The
    /// packages of the state are compiled from those that the host and the
    /// groups declare, with what `system_state` knows of the package groups
    /// that are installed.
    pub fn new(
        configuration: &Configuration,
        host: Host,
        groups: Vec<Group>,
        system_state: &SystemState,
    ) -> (result: Result<State, Error>)
        ensures
            ({
                let resolved = HostView { groups: views(groups@), ..host@ };
                match first_unresolved(host@.config.groups, views(groups@), 0) {
                    Some(name) => result matches Err(error) && error@ == ErrorView::UnknownGroup(
                        name,
                    ),
                    None => match compiled_packages(resolved, system_state@) {
                        Err(error) => result matches Err(found) && found@ == error,
                        Ok(packages) => result matches Ok(state) && state@ == (StateView {
                            host: resolved,
                            configuration: configuration@,
                            packages,
                        }) && state.host.variables == host.variables,
                    },
                }
            }),
    {
        let mut state = match State::assemble(configuration, host, groups) {
            Ok(state) => state,
            Err(error) => {
                return Err(error);
            },
        };
        match state.load_packages(system_state) {
            Ok(()) => Ok(state),
            Err(error) => Err(error),
        }
    }

    /// The packages that are declared more than once, manager by manager.
    ///
    /// Nothing is wrong with such a package: it is installed once. The
    /// caller may want to tell the user.
    pub fn duplicate_packages(&self) -> (found: Vec<DuplicatePackage>)
        ensures
            views(found@) == duplicates(self@.host, PackageManager::Pacman) + duplicates(
                self@.host,
                PackageManager::Paru,
            ) + duplicates(self@.host, PackageManager::Apt),
    {
        let mut found = manager_duplicates(&self.host, PackageManager::Pacman);
        let mut paru = manager_duplicates(&self.host, PackageManager::Paru);
        let mut apt = manager_duplicates(&self.host, PackageManager::Apt);
        proof {
            crate::changeset::lemma_views_add(found@, paru@);
            crate::changeset::lemma_views_add(found@ + paru@, apt@);
        }
        found.append(&mut paru);
        found.append(&mut apt);
        found
    }

    /// Compiles the packages of the state from those that its host and
    /// groups declare.
    ///
    /// A declared name that is a package group on the live system is
    /// replaced by the packages of the group. What the state needs to know of
    /// the live system and `system_state` does not hold is asked for by
    /// `Error::GroupsNotLoaded` and `Error::GroupMembersNotLoaded`; the
    /// state is then left as it was.
    pub fn load_packages(&mut self, system_state: &SystemState) -> (result: Result<(), Error>)
        ensures
            match compiled_packages(old(self)@.host, system_state@) {
                Ok(packages) => result is Ok && final(self)@ == (StateView {
                    packages,
                    ..old(self)@
                }) && final(self).host.variables == old(self).host.variables,
                Err(error) => result matches Err(found) && found@ == error && final(self)@ == old(
                    self,
                )@,
            },
    {
        let pacman = match compile_manager(&self.host, system_state, PackageManager::Pacman) {
            Ok(names) => names,
            Err(error) => {
                return Err(error);
            },
        };
        let paru = match compile_manager(&self.host, system_state, PackageManager::Paru) {
            Ok(names) => names,
            Err(error) => {
                return Err(error);
            },
        };
        let apt = match compile_manager(&self.host, system_state, PackageManager::Apt) {
            Ok(names) => names,
            Err(error) => {
                return Err(error);
            },
        };
        self.packages = PackageSets { pacman, paru, apt };
        Ok(())
    }
}

} // verus!
