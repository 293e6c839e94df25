//! Package managers and the package sets kept for each of them.

use vstd::prelude::*;

use crate::changeset::{
    views, PackageInstall, PackageInstallView, PackageUninstall, PackageUninstallView,
};
use crate::error::{Error, ErrorView};
use crate::system_state::{SystemState, SystemStateView};
use crate::text::{clone_texts, contains_text, texts};

pub mod pacman;
pub mod paru;

verus! {

/// The package managers a state can declare packages for.
#[derive(Clone, Copy, Debug, PartialEq, Eq, Structural, Hash, PartialOrd, Ord)]
pub enum PackageManager {
    Pacman,
    Paru,
    Apt,
}

impl PackageManager {
    /// The name of the manager, as it is shown to the user.
    pub fn name(&self) -> (name: String)
        ensures
            name@ == match *self {
                PackageManager::Pacman => "Pacman"@,
                PackageManager::Paru => "Paru"@,
                PackageManager::Apt => "Apt"@,
            },
    {
        match self {
            PackageManager::Pacman => String::from_str("Pacman"),
            PackageManager::Paru => String::from_str("Paru"),
            PackageManager::Apt => String::from_str("Apt"),
        }
    }
}

/// A set of package names for each package manager that has one.
///
/// A manager without a set and a manager with an empty set are two things:
/// the first was never declared, or never queried.
#[derive(Debug)]
pub struct PackageSets {
    pub pacman: Option<Vec<String>>,
    pub paru: Option<Vec<String>>,
    pub apt: Option<Vec<String>>,
}

/// The mathematical value of [`PackageSets`]: the names of each set, in the
/// order in which they were added.
pub struct PackageSetsView {
    pub pacman: Option<Seq<Seq<char>>>,
    pub paru: Option<Seq<Seq<char>>>,
    pub apt: Option<Seq<Seq<char>>>,
}

/// The names of an optional list.
pub open spec fn names_of(set: Option<Vec<String>>) -> Option<Seq<Seq<char>>> {
    match set {
        Some(names) => Some(texts(names@)),
        None => None,
    }
}

/// The names of a set, or none where there is no set.
pub open spec fn names_or_none(set: Option<Seq<Seq<char>>>) -> Seq<Seq<char>> {
    match set {
        Some(names) => names,
        None => Seq::empty(),
    }
}

impl View for PackageSets {
    type V = PackageSetsView;

    open spec fn view(&self) -> PackageSetsView {
        PackageSetsView {
            pacman: names_of(self.pacman),
            paru: names_of(self.paru),
            apt: names_of(self.apt),
        }
    }
}

impl PackageSetsView {
    /// No set for any manager.
    pub open spec fn empty() -> PackageSetsView {
        PackageSetsView { pacman: None, paru: None, apt: None }
    }

    /// The set of a manager.
    pub open spec fn get(self, manager: PackageManager) -> Option<Seq<Seq<char>>> {
        match manager {
            PackageManager::Pacman => self.pacman,
            PackageManager::Paru => self.paru,
            PackageManager::Apt => self.apt,
        }
    }

    /// These sets with the set of one manager replaced.
    pub open spec fn with(self, manager: PackageManager, names: Seq<Seq<char>>) -> PackageSetsView {
        match manager {
            PackageManager::Pacman => PackageSetsView { pacman: Some(names), ..self },
            PackageManager::Paru => PackageSetsView { paru: Some(names), ..self },
            PackageManager::Apt => PackageSetsView { apt: Some(names), ..self },
        }
    }

    /// Whether a manager has a set and the set holds a name.
    pub open spec fn holds(self, manager: PackageManager, name: Seq<char>) -> bool {
        self.get(manager) is Some && self.get(manager).unwrap().contains(name)
    }
}

impl Clone for PackageSets {
    fn clone(&self) -> (copy: PackageSets)
        ensures
            copy@ == self@,
    {
        PackageSets {
            pacman: match &self.pacman {
                Some(names) => Some(clone_texts(names)),
                None => None,
            },
            paru: match &self.paru {
                Some(names) => Some(clone_texts(names)),
                None => None,
            },
            apt: match &self.apt {
                Some(names) => Some(clone_texts(names)),
                None => None,
            },
        }
    }
}

impl Default for PackageSets {
    fn default() -> (sets: PackageSets)
        ensures
            sets@ == PackageSetsView::empty(),
    {
        PackageSets { pacman: None, paru: None, apt: None }
    }
}

impl PackageSets {
    /// No set for any manager.
    pub fn new() -> (sets: PackageSets)
        ensures
            sets@ == PackageSetsView::empty(),
    {
        PackageSets { pacman: None, paru: None, apt: None }
    }

    /// The set of a manager.
    pub fn get(&self, manager: PackageManager) -> (set: &Option<Vec<String>>)
        ensures
            names_of(*set) == self@.get(manager),
    {
        match manager {
            PackageManager::Pacman => &self.pacman,
            PackageManager::Paru => &self.paru,
            PackageManager::Apt => &self.apt,
        }
    }

    /// Puts a set in the place of the one a manager has.
    pub fn insert(&mut self, manager: PackageManager, names: Vec<String>)
        ensures
            final(self)@ == old(self)@.with(manager, texts(names@)),
    {
        match manager {
            PackageManager::Pacman => {
                self.pacman = Some(names);
            },
            PackageManager::Paru => {
                self.paru = Some(names);
            },
            PackageManager::Apt => {
                self.apt = Some(names);
            },
        }
    }

    /// Whether a manager has a set and the set holds a name.
    pub fn holds(&self, manager: PackageManager, name: &String) -> (found: bool)
        ensures
            found == self@.holds(manager, name@),
    {
        match self.get(manager) {
            Some(names) => contains_text(names, name),
            None => false,
        }
    }
}

/// The names of a list, each once, at the place where it first stands.
pub open spec fn distinct(names: Seq<Seq<char>>) -> Seq<Seq<char>>
    decreases names.len(),
{
    if names.len() == 0 {
        names
    } else {
        let before = distinct(names.drop_last());
        if before.contains(names.last()) {
            before
        } else {
            before.push(names.last())
        }
    }
}

/// A list without repetitions holds what the list it was made of holds.
pub proof fn lemma_distinct(names: Seq<Seq<char>>)
    ensures
        distinct(names).no_duplicates(),
        forall|name: Seq<char>| distinct(names).contains(name) <==> names.contains(name),
    decreases names.len(),
{
    if names.len() > 0 {
        let before = names.drop_last();
        lemma_distinct(before);
        assert forall|name: Seq<char>| distinct(names).contains(name) <==> names.contains(
            name,
        ) by {
            if names.contains(name) {
                let i = choose|i: int| 0 <= i < names.len() && names[i] == name;
                if i < names.len() - 1 {
                    assert(before[i] == name);
                    assert(before.contains(name));
                    let j = choose|j: int| 0 <= j < distinct(before).len() && distinct(before)[j]
                        == name;
                    assert(distinct(names)[j] == name);
                } else if !distinct(before).contains(name) {
                    assert(distinct(names)[distinct(before).len() as int] == name);
                }
            }
            if distinct(names).contains(name) {
                let j = choose|j: int| 0 <= j < distinct(names).len() && distinct(names)[j] == name;
                if j < distinct(before).len() {
                    assert(distinct(before)[j] == name);
                    assert(before.contains(name));
                    let i = choose|i: int| 0 <= i < before.len() && before[i] == name;
                    assert(names[i] == name);
                } else {
                    assert(names[names.len() - 1] == name);
                }
            }
        }
    }
}

/// Adds the names of `more` that `names` does not hold yet.
pub fn add_names(names: &mut Vec<String>, more: &Vec<String>)
    requires
        texts(old(names)@).no_duplicates(),
    ensures
        texts(final(names)@) == distinct(texts(old(names)@) + texts(more@)),
        texts(final(names)@).no_duplicates(),
{
    let ghost start = texts(names@);
    proof {
        lemma_distinct_of_set(start);
        assert(start + texts(more@).take(0) =~= start);
    }
    let mut index: usize = 0;
    while index < more.len()
        invariant
            index <= more.len(),
            start.no_duplicates(),
            texts(names@) == distinct(start + texts(more@).take(index as int)),
        decreases more.len() - index,
    {
        let ghost seen = start + texts(more@).take(index as int);
        let ghost next = start + texts(more@).take(index + 1);
        proof {
            assert(next.drop_last() =~= seen);
            assert(next.last() == more@[index as int]@);
        }
        if !contains_text(names, &more[index]) {
            let ghost before = names@;
            names.push(more[index].clone());
            assert(texts(names@) =~= texts(before).push(more@[index as int]@));
        }
        index += 1;
    }
    proof {
        assert(texts(more@).take(index as int) =~= texts(more@));
        lemma_distinct(start + texts(more@));
    }
}

/// A list without repetitions is left as it is.
pub proof fn lemma_distinct_of_set(names: Seq<Seq<char>>)
    requires
        names.no_duplicates(),
    ensures
        distinct(names) == names,
    decreases names.len(),
{
    if names.len() > 0 {
        let before = names.drop_last();
        lemma_distinct_of_set(before);
        if before.contains(names.last()) {
            let i = choose|i: int| 0 <= i < before.len() && before[i] == names.last();
            assert(names[i] == names[names.len() - 1]);
        }
        assert(before.push(names.last()) =~= names);
    }
}


/// Whether a name passes: `lacking` must not hold it, and `holding`, where
/// there is one, must.
pub open spec fn passes(
    name: Seq<char>,
    lacking: Seq<Seq<char>>,
    holding: Option<Seq<Seq<char>>>,
) -> bool {
    !lacking.contains(name) && (holding is Some ==> holding.unwrap().contains(name))
}

/// The names of a list that `lacking` does not hold and that `holding`,
/// where there is one, holds; in the order of the list.
pub open spec fn selected(
    names: Seq<Seq<char>>,
    lacking: Seq<Seq<char>>,
    holding: Option<Seq<Seq<char>>>,
) -> Seq<Seq<char>> {
    names.filter(|name: Seq<char>| passes(name, lacking, holding))
}

/// What is selected from a list with one more name.
pub proof fn lemma_selected_push(
    names: Seq<Seq<char>>,
    name: Seq<char>,
    lacking: Seq<Seq<char>>,
    holding: Option<Seq<Seq<char>>>,
)
    ensures
        selected(names.push(name), lacking, holding) == if passes(name, lacking, holding) {
            selected(names, lacking, holding).push(name)
        } else {
            selected(names, lacking, holding)
        },
{
    names.lemma_filter_push(name, |name: Seq<char>| passes(name, lacking, holding));
}

/// Every name that is selected passes, and was in the list.
pub proof fn lemma_selected_contains(
    names: Seq<Seq<char>>,
    lacking: Seq<Seq<char>>,
    holding: Option<Seq<Seq<char>>>,
    name: Seq<char>,
)
    ensures
        selected(names, lacking, holding).contains(name) <==> names.contains(name) && passes(
            name,
            lacking,
            holding,
        ),
    decreases names.len(),
{
    if names.len() > 0 {
        let before = names.drop_last();
        lemma_selected_contains(before, lacking, holding, name);
        assert(before.push(names.last()) =~= names);
        lemma_selected_push(before, names.last(), lacking, holding);
        let chosen = selected(before, lacking, holding);
        if names.contains(name) {
            let i = choose|i: int| 0 <= i < names.len() && names[i] == name;
            if i < before.len() {
                assert(before[i] == name);
            }
        }
        if before.contains(name) {
            let i = choose|i: int| 0 <= i < before.len() && before[i] == name;
            assert(names[i] == name);
        }
        if passes(names.last(), lacking, holding) {
            assert(chosen.push(names.last())[chosen.len() as int] == names.last());
            if chosen.contains(name) {
                let i = choose|i: int| 0 <= i < chosen.len() && chosen[i] == name;
                assert(chosen.push(names.last())[i] == name);
            }
            if chosen.push(names.last()).contains(name) && name != names.last() {
                let i = choose|i: int|
                    0 <= i < chosen.push(names.last()).len() && chosen.push(names.last())[i]
                        == name;
                assert(chosen[i] == name);
            }
        }
        assert(names[names.len() - 1] == names.last());
    }
}

/// What is selected from a list without repetitions has none.
pub proof fn lemma_selected_is_set(
    names: Seq<Seq<char>>,
    lacking: Seq<Seq<char>>,
    holding: Option<Seq<Seq<char>>>,
)
    requires
        names.no_duplicates(),
    ensures
        selected(names, lacking, holding).no_duplicates(),
    decreases names.len(),
{
    if names.len() > 0 {
        let before = names.drop_last();
        lemma_selected_is_set(before, lacking, holding);
        assert(before.push(names.last()) =~= names);
        lemma_selected_push(before, names.last(), lacking, holding);
        lemma_selected_contains(before, lacking, holding, names.last());
        if before.contains(names.last()) {
            let i = choose|i: int| 0 <= i < before.len() && before[i] == names.last();
            assert(names[i] == names[names.len() - 1]);
        }
    } else {
        lemma_selected_nothing_of_nothing(lacking, holding);
    }
}

/// Nothing is selected from an empty list.
pub proof fn lemma_selected_nothing_of_nothing(
    lacking: Seq<Seq<char>>,
    holding: Option<Seq<Seq<char>>>,
)
    ensures
        selected(Seq::empty(), lacking, holding) == Seq::<Seq<char>>::empty(),
{
    let chosen = selected(Seq::empty(), lacking, holding);
    if chosen.len() > 0 {
        assert(chosen.contains(chosen[0]));
        lemma_selected_contains(Seq::empty(), lacking, holding, chosen[0]);
    }
    assert(chosen =~= Seq::empty());
}

/// The names of a list that `lacking` does not hold and that `holding`,
/// where there is one, holds.
pub fn select_names(names: &Vec<String>, lacking: &Vec<String>, holding: Option<&Vec<String>>) -> (chosen:
    Vec<String>)
    ensures
        texts(chosen@) == selected(
            texts(names@),
            texts(lacking@),
            match holding {
                Some(holding) => Some(texts(holding@)),
                None => None,
            },
        ),
{
    let ghost held = match holding {
        Some(holding) => Some(texts(holding@)),
        None => None,
    };
    let mut chosen: Vec<String> = Vec::new();
    let mut index: usize = 0;
    proof {
        assert(texts(names@).take(0) =~= Seq::empty());
        assert(texts(chosen@) =~= Seq::empty());
    }
    while index < names.len()
        invariant
            index <= names.len(),
            held == match holding {
                Some(holding) => Some(texts(holding@)),
                None => None,
            },
            texts(chosen@) == selected(texts(names@).take(index as int), texts(lacking@), held),
        decreases names.len() - index,
    {
        let name = &names[index];
        proof {
            assert(texts(names@).take(index + 1) =~= texts(names@).take(index as int).push(name@));
            lemma_selected_push(texts(names@).take(index as int), name@, texts(lacking@), held);
        }
        let wanted = !contains_text(lacking, name) && match holding {
            Some(holding) => contains_text(holding, name),
            None => true,
        };
        if wanted {
            let ghost before = chosen@;
            chosen.push(name.clone());
            assert(texts(chosen@) =~= texts(before).push(name@));
        }
        index += 1;
    }
    proof {
        assert(texts(names@).take(index as int) =~= texts(names@));
    }
    chosen
}


// ---------------------------------------------------------------------------
// Batches
// ---------------------------------------------------------------------------

/// The packages of one manager that are installed or removed in one go, so
/// that the manager sees what belongs together.
#[derive(Debug)]
pub struct PackageBatch {
    pub manager: PackageManager,
    pub names: Vec<String>,
}

/// The mathematical value of a [`PackageBatch`].
pub struct PackageBatchView {
    pub manager: PackageManager,
    pub names: Seq<Seq<char>>,
}

impl View for PackageBatch {
    type V = PackageBatchView;

    open spec fn view(&self) -> PackageBatchView {
        PackageBatchView { manager: self.manager, names: texts(self.names@) }
    }
}

/// The batch of a manager, where it is not empty.
pub open spec fn batch_of(manager: PackageManager, names: Seq<Seq<char>>) -> Seq<PackageBatchView> {
    if names.len() == 0 {
        Seq::empty()
    } else {
        seq![PackageBatchView { manager, names }]
    }
}

/// The names of the packages of a list that are to be installed by a manager.
pub open spec fn installs_for(installs: Seq<PackageInstallView>, manager: PackageManager) -> Seq<
    Seq<char>,
> {
    installs.filter(|install: PackageInstallView| install.manager == manager).map_values(
        |install: PackageInstallView| install.name,
    )
}

/// The names of the packages of a list that are to be removed by a manager.
pub open spec fn uninstalls_for(
    uninstalls: Seq<PackageUninstallView>,
    manager: PackageManager,
) -> Seq<Seq<char>> {
    uninstalls.filter(|uninstall: PackageUninstallView| uninstall.manager == manager).map_values(
        |uninstall: PackageUninstallView| uninstall.name,
    )
}

/// The batches in which the packages of a list are installed: one for
/// `pacman` and one for `paru`, in this order, each with the packages of its
/// manager in the order of the list. Nothing can be installed with `apt`.
pub open spec fn install_batches(installs: Seq<PackageInstallView>) -> Result<
    Seq<PackageBatchView>,
    ErrorView,
> {
    if installs_for(installs, PackageManager::Apt).len() > 0 {
        Err(ErrorView::UnsupportedManager(PackageManager::Apt))
    } else {
        Ok(
            batch_of(PackageManager::Pacman, installs_for(installs, PackageManager::Pacman))
                + batch_of(PackageManager::Paru, installs_for(installs, PackageManager::Paru)),
        )
    }
}

/// The batch in which the packages of one manager are removed: those of
/// the list that are installed on request. Where the list names a package of
/// the manager, what is installed on request must be on record.
pub open spec fn uninstall_batch(
    uninstalls: Seq<PackageUninstallView>,
    system: SystemStateView,
    manager: PackageManager,
) -> Result<Seq<PackageBatchView>, ErrorView> {
    let names = uninstalls_for(uninstalls, manager);
    if names.len() == 0 {
        Ok(Seq::empty())
    } else {
        match system.explicit_packages.get(manager) {
            None => Err(ErrorView::PackagesNotLoaded(manager)),
            Some(explicit) => Ok(batch_of(manager, selected(names, Seq::empty(), Some(explicit)))),
        }
    }
}

/// The batches in which the packages of a list are removed.
pub open spec fn uninstall_batches(
    uninstalls: Seq<PackageUninstallView>,
    system: SystemStateView,
) -> Result<Seq<PackageBatchView>, ErrorView> {
    if uninstalls_for(uninstalls, PackageManager::Apt).len() > 0 {
        Err(ErrorView::UnsupportedManager(PackageManager::Apt))
    } else {
        crate::changeset::chain(
            uninstall_batch(uninstalls, system, PackageManager::Pacman),
            uninstall_batch(uninstalls, system, PackageManager::Paru),
        )
    }
}

/// The names of the packages of a list that are to be installed by a manager.
fn names_to_install(packages: &Vec<PackageInstall>, manager: PackageManager) -> (names: Vec<String>)
    ensures
        texts(names@) == installs_for(views(packages@), manager),
{
    let ghost all = views(packages@);
    let ghost wanted = |install: PackageInstallView| install.manager == manager;
    let ghost name = |install: PackageInstallView| install.name;
    let mut names: Vec<String> = Vec::new();
    let mut index: usize = 0;
    proof {
        assert(all.take(0) =~= Seq::empty());
        assert(texts(names@) =~= Seq::empty());
    }
    while index < packages.len()
        invariant
            index <= packages.len(),
            all == views(packages@),
            wanted == |install: PackageInstallView| install.manager == manager,
            name == |install: PackageInstallView| install.name,
            texts(names@) == all.take(index as int).filter(wanted).map_values(name),
        decreases packages.len() - index,
    {
        proof {
            assert(all.take(index + 1) =~= all.take(index as int).push(packages@[index as int]@));
            all.take(index as int).lemma_filter_push(packages@[index as int]@, wanted);
        }
        if packages[index].manager == manager {
            let ghost before = names@;
            names.push(packages[index].name.clone());
            proof {
                let chosen = all.take(index as int).filter(wanted);
                assert(texts(names@) =~= texts(before).push(packages@[index as int]@.name));
                assert(chosen.push(packages@[index as int]@).map_values(name) =~= chosen.map_values(
                    name,
                ).push(packages@[index as int]@.name));
            }
        }
        index += 1;
    }
    proof {
        assert(all.take(index as int) =~= all);
    }
    names
}

/// The names of the packages of a list that are to be removed by a manager.
fn names_to_uninstall(packages: &Vec<PackageUninstall>, manager: PackageManager) -> (names: Vec<
    String,
>)
    ensures
        texts(names@) == uninstalls_for(views(packages@), manager),
{
    let ghost all = views(packages@);
    let ghost wanted = |uninstall: PackageUninstallView| uninstall.manager == manager;
    let ghost name = |uninstall: PackageUninstallView| uninstall.name;
    let mut names: Vec<String> = Vec::new();
    let mut index: usize = 0;
    proof {
        assert(all.take(0) =~= Seq::empty());
        assert(texts(names@) =~= Seq::empty());
    }
    while index < packages.len()
        invariant
            index <= packages.len(),
            all == views(packages@),
            wanted == |uninstall: PackageUninstallView| uninstall.manager == manager,
            name == |uninstall: PackageUninstallView| uninstall.name,
            texts(names@) == all.take(index as int).filter(wanted).map_values(name),
        decreases packages.len() - index,
    {
        proof {
            assert(all.take(index + 1) =~= all.take(index as int).push(packages@[index as int]@));
            all.take(index as int).lemma_filter_push(packages@[index as int]@, wanted);
        }
        if packages[index].manager == manager {
            let ghost before = names@;
            names.push(packages[index].name.clone());
            proof {
                let chosen = all.take(index as int).filter(wanted);
                assert(texts(names@) =~= texts(before).push(packages@[index as int]@.name));
                assert(chosen.push(packages@[index as int]@).map_values(name) =~= chosen.map_values(
                    name,
                ).push(packages@[index as int]@.name));
            }
        }
        index += 1;
    }
    proof {
        assert(all.take(index as int) =~= all);
    }
    names
}

/// Adds the batch of a manager to a list of batches, where it is not empty.
fn add_batch(batches: &mut Vec<PackageBatch>, manager: PackageManager, names: Vec<String>)
    ensures
        views(final(batches)@) == views(old(batches)@) + batch_of(manager, texts(names@)),
{
    if names.len() > 0 {
        let batch = PackageBatch { manager, names };
        proof {
            crate::changeset::lemma_views_push(batches@, batch);
            assert(views(batches@).push(batch@) =~= views(batches@) + seq![batch@]);
        }
        batches.push(batch);
    } else {
        assert(views(batches@) + Seq::<PackageBatchView>::empty() =~= views(batches@));
    }
}

/// Sorts the packages to install by manager: the packages of one manager
/// are installed in one go.
///
/// The caller installs batch after batch, and after each one records anew
/// what is installed for its manager.
pub fn install_packages(packages: &Vec<PackageInstall>) -> (result: Result<Vec<PackageBatch>, Error>)
    ensures
        match install_batches(views(packages@)) {
            Ok(batches) => result matches Ok(found) && views(found@) == batches,
            Err(error) => result matches Err(found) && found@ == error,
        },
{
    if names_to_install(packages, PackageManager::Apt).len() > 0 {
        return Err(Error::UnsupportedManager(PackageManager::Apt));
    }
    let mut batches: Vec<PackageBatch> = Vec::new();
    proof {
        assert(views(batches@) =~= Seq::empty());
    }
    add_batch(&mut batches, PackageManager::Pacman, names_to_install(packages, PackageManager::Pacman));
    add_batch(&mut batches, PackageManager::Paru, names_to_install(packages, PackageManager::Paru));
    proof {
        let none = Seq::<PackageBatchView>::empty();
        let pacman = batch_of(
            PackageManager::Pacman,
            installs_for(views(packages@), PackageManager::Pacman),
        );
        let paru = batch_of(PackageManager::Paru, installs_for(views(packages@), PackageManager::Paru));
        assert((none + pacman) + paru =~= pacman + paru);
    }
    Ok(batches)
}

/// Adds the batch in which the packages of one manager are removed.
fn add_uninstall_batch(
    batches: &mut Vec<PackageBatch>,
    system_state: &SystemState,
    packages: &Vec<PackageUninstall>,
    manager: PackageManager,
) -> (result: Result<(), Error>)
    ensures
        match uninstall_batch(views(packages@), system_state@, manager) {
            Ok(batch) => result is Ok && views(final(batches)@) == views(old(batches)@) + batch,
            Err(error) => result matches Err(found) && found@ == error,
        },
{
    let names = names_to_uninstall(packages, manager);
    if names.len() == 0 {
        assert(views(batches@) + Seq::<PackageBatchView>::empty() =~= views(batches@));
        return Ok(());
    }
    let explicit = match system_state.explicit_packages.get(manager) {
        Some(explicit) => explicit,
        None => {
            return Err(Error::PackagesNotLoaded(manager));
        },
    };
    let none: Vec<String> = Vec::new();
    assert(texts(none@) =~= Seq::empty());
    add_batch(batches, manager, select_names(&names, &none, Some(explicit)));
    Ok(())
}

/// Sorts the packages to remove by manager, and leaves out those that are
/// not installed on request: the packages of one manager are removed in one go.
///
/// The caller removes batch after batch, and after each one records anew
/// what is installed for its manager, since a removal takes dependencies
/// with it.
pub fn uninstall_packages(system_state: &SystemState, packages: &Vec<PackageUninstall>) -> (result:
    Result<Vec<PackageBatch>, Error>)
    ensures
        match uninstall_batches(views(packages@), system_state@) {
            Ok(batches) => result matches Ok(found) && views(found@) == batches,
            Err(error) => result matches Err(found) && found@ == error,
        },
{
    if names_to_uninstall(packages, PackageManager::Apt).len() > 0 {
        return Err(Error::UnsupportedManager(PackageManager::Apt));
    }
    let mut batches: Vec<PackageBatch> = Vec::new();
    proof {
        assert(views(batches@) =~= Seq::empty());
    }
    match add_uninstall_batch(&mut batches, system_state, packages, PackageManager::Pacman) {
        Ok(()) => {},
        Err(error) => {
            return Err(error);
        },
    }
    let ghost pacman = views(batches@);
    match add_uninstall_batch(&mut batches, system_state, packages, PackageManager::Paru) {
        Ok(()) => {},
        Err(error) => {
            return Err(error);
        },
    }
    proof {
        let none = Seq::<PackageBatchView>::empty();
        let first = uninstall_batch(views(packages@), system_state@, PackageManager::Pacman)->Ok_0;
        let second = uninstall_batch(views(packages@), system_state@, PackageManager::Paru)->Ok_0;
        assert((none + first) + second =~= first + second);
    }
    Ok(batches)
}

/// The names of the package groups that are installed, as the listing of
/// the manager gives them. `paru` knows no groups, whatever the listing says.
pub fn get_detected_groups(manager: PackageManager, listing: &str) -> (result: Result<
    Vec<String>,
    Error,
>)
    ensures
        match manager {
            PackageManager::Pacman => result matches Ok(groups) && texts(groups@) == distinct(
                crate::text::lines_of(listing@).map_values(
                    |line: Seq<char>| pacman::first_field(line),
                ),
            ),
            PackageManager::Paru => result matches Ok(groups) && groups@.len() == 0,
            PackageManager::Apt => result matches Err(error) && error@
                == ErrorView::UnsupportedManager(PackageManager::Apt),
        },
{
    match manager {
        PackageManager::Pacman => Ok(pacman::detect_installed_groups(listing)),
        PackageManager::Paru => Ok(Vec::new()),
        PackageManager::Apt => Err(Error::UnsupportedManager(PackageManager::Apt)),
    }
}


// ---------------------------------------------------------------------------
// What to ask the managers
// ---------------------------------------------------------------------------

/// The command lines whose listings say what is installed for a manager.
#[derive(Debug)]
pub struct PackageQueries {
    /// Lists all installed packages. `None` where the packages installed on
    /// request are all that are installed.
    pub all: Option<Vec<String>>,
    /// Lists the packages installed on request.
    pub explicit: Vec<String>,
}

/// The command lines whose listings say what is installed for a manager.
pub fn package_queries(manager: PackageManager) -> (result: Result<PackageQueries, Error>)
    ensures
        match manager {
            PackageManager::Pacman => result matches Ok(queries) && names_of(queries.all) == Some(
                seq!["pacman"@, "--query"@, "--quiet"@, "--native"@],
            ) && texts(queries.explicit@) == seq![
                "pacman"@,
                "--query"@,
                "--quiet"@,
                "--explicit"@,
                "--native"@,
            ],
            PackageManager::Paru => result matches Ok(queries) && queries.all is None && texts(
                queries.explicit@,
            ) == seq!["pacman"@, "--query"@, "--quiet"@, "--explicit"@, "--foreign"@],
            PackageManager::Apt => result matches Err(error) && error@
                == ErrorView::UnsupportedManager(PackageManager::Apt),
        },
{
    match manager {
        PackageManager::Pacman => Ok(
            PackageQueries {
                all: Some(pacman::packages_command()),
                explicit: pacman::explicit_packages_command(),
            },
        ),
        PackageManager::Paru => Ok(
            PackageQueries { all: None, explicit: paru::explicit_packages_command() },
        ),
        PackageManager::Apt => Err(Error::UnsupportedManager(PackageManager::Apt)),
    }
}

/// What is installed for a manager, as the listings say: all packages, and
/// those installed on request. Without a listing of all packages, those
/// installed on request are all.
pub fn installed_packages(all: Option<&str>, explicit: &str) -> (installed: (Vec<String>, Vec<String>))
    ensures
        texts(installed.1@) == distinct(crate::text::lines_of(explicit@)),
        texts(installed.0@) == distinct(
            crate::text::lines_of(
                match all {
                    Some(all) => all@,
                    None => explicit@,
                },
            ),
        ),
{
    let requested = pacman::explicit_packages(explicit);
    let every = match all {
        Some(all) => pacman::packages(all),
        None => pacman::explicit_packages(explicit),
    };
    (every, requested)
}

/// The command line that installs the packages of a batch.
pub fn install_command(batch: &PackageBatch) -> (result: Result<Vec<String>, Error>)
    ensures
        match batch.manager {
            PackageManager::Pacman => result matches Ok(line) && texts(line@) == seq![
                "pacman"@,
                "--sync"@,
                "--refresh"@,
                "--noconfirm"@,
            ] + batch@.names,
            PackageManager::Paru => result matches Ok(line) && texts(line@) == seq![
                "sudo"@,
                "-u"@,
                "aur"@,
                "paru"@,
                "--sync"@,
                "--refresh"@,
                "--aur"@,
                "--noconfirm"@,
            ] + batch@.names,
            PackageManager::Apt => result matches Err(error) && error@
                == ErrorView::UnsupportedManager(PackageManager::Apt),
        },
{
    match batch.manager {
        PackageManager::Pacman => Ok(pacman::install_command(&batch.names)),
        PackageManager::Paru => Ok(paru::install_command(&batch.names)),
        PackageManager::Apt => Err(Error::UnsupportedManager(PackageManager::Apt)),
    }
}

/// The command line that removes the packages of a batch.
pub fn uninstall_command(batch: &PackageBatch) -> (result: Result<Vec<String>, Error>)
    ensures
        match batch.manager {
            PackageManager::Pacman | PackageManager::Paru => result matches Ok(line) && texts(line@)
                == seq!["pacman"@, "--remove"@, "--nosave"@, "--noconfirm"@] + batch@.names,
            PackageManager::Apt => result matches Err(error) && error@
                == ErrorView::UnsupportedManager(PackageManager::Apt),
        },
{
    match batch.manager {
        PackageManager::Pacman => Ok(pacman::uninstall_command(&batch.names)),
        PackageManager::Paru => Ok(paru::uninstall_command(&batch.names)),
        PackageManager::Apt => Err(Error::UnsupportedManager(PackageManager::Apt)),
    }
}

/// The command line that lists the installed package groups of a manager;
/// `None` for a manager that knows no groups.
pub fn groups_query(manager: PackageManager) -> (result: Result<Option<Vec<String>>, Error>)
    ensures
        match manager {
            PackageManager::Pacman => result matches Ok(Some(line)) && texts(line@) == seq![
                "pacman"@,
                "--query"@,
                "--groups"@,
                "--quiet"@,
            ],
            PackageManager::Paru => result matches Ok(None),
            PackageManager::Apt => result matches Err(error) && error@
                == ErrorView::UnsupportedManager(PackageManager::Apt),
        },
{
    match manager {
        PackageManager::Pacman => Ok(Some(pacman::groups_command())),
        PackageManager::Paru => Ok(None),
        PackageManager::Apt => Err(Error::UnsupportedManager(PackageManager::Apt)),
    }
}

} // verus!
