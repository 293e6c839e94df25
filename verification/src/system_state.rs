//! What a run has found out about the live system.
//!
//! Nothing here looks at the system. The caller queries the package managers
//! and the file system and records what came back; the passes read the
//! record, and ask for a fact that is missing by the error they return.

use vstd::prelude::*;

use crate::handlers::packages::{names_of, PackageManager, PackageSets, PackageSetsView};
use crate::text::{clone_texts, text_of, texts};

verus! {

/// What the live system holds at a path.
#[derive(Debug)]
pub struct LiveEntry {
    /// The content, where the path holds a file that can be read as text.
    pub content: Option<String>,
    /// The mode as the operating system reports it, file type bits included.
    pub mode: u32,
    /// The name of the owner.
    pub owner: String,
    /// The name of the group.
    pub group: String,
}

/// The mathematical value of a [`LiveEntry`].
pub struct LiveEntryView {
    pub content: Option<Seq<char>>,
    pub mode: u32,
    pub owner: Seq<char>,
    pub group: Seq<char>,
}

impl View for LiveEntry {
    type V = LiveEntryView;

    open spec fn view(&self) -> LiveEntryView {
        LiveEntryView {
            content: text_of(self.content),
            mode: self.mode,
            owner: self.owner@,
            group: self.group@,
        }
    }
}

/// What was found at a path: an entry, or nothing.
#[derive(Debug)]
pub struct Observation {
    pub path: String,
    pub entry: Option<LiveEntry>,
}

/// The mathematical value of an [`Observation`].
pub struct ObservationView {
    pub path: Seq<char>,
    pub entry: Option<LiveEntryView>,
}

impl View for Observation {
    type V = ObservationView;

    open spec fn view(&self) -> ObservationView {
        ObservationView {
            path: self.path@,
            entry: match self.entry {
                Some(entry) => Some(entry@),
                None => None,
            },
        }
    }
}

/// The packages that a package group of a manager stands for.
#[derive(Debug)]
pub struct GroupMembers {
    pub manager: PackageManager,
    pub group: String,
    pub packages: Vec<String>,
}

/// The mathematical value of [`GroupMembers`].
pub struct GroupMembersView {
    pub manager: PackageManager,
    pub group: Seq<char>,
    pub packages: Seq<Seq<char>>,
}

impl View for GroupMembers {
    type V = GroupMembersView;

    open spec fn view(&self) -> GroupMembersView {
        GroupMembersView {
            manager: self.manager,
            group: self.group@,
            packages: texts(self.packages@),
        }
    }
}

/// The facts about the live system that a run has gathered so far.
///
/// Each fact is looked up once and kept. The installed packages of a manager
/// are recorded anew after every operation that installs or removes
/// packages, since such an operation changes what is installed beyond the
/// packages it names.
#[derive(Debug)]
pub struct SystemState {
    /// All installed packages, dependencies included.
    pub packages: PackageSets,
    /// The packages that were installed on request.
    pub explicit_packages: PackageSets,
    /// The names of the installed package groups.
    pub detected_package_groups: PackageSets,
    /// The packages of package groups, the latest record of a group last.
    pub group_packages: Vec<GroupMembers>,
    /// What was found at paths, the latest observation of a path last.
    pub paths: Vec<Observation>,
}

/// The mathematical value of a [`SystemState`].
pub struct SystemStateView {
    pub packages: PackageSetsView,
    pub explicit_packages: PackageSetsView,
    pub detected_package_groups: PackageSetsView,
    pub group_packages: Seq<GroupMembersView>,
    pub paths: Seq<ObservationView>,
}

/// The packages of a group as the latest record among the first `end` gives them.
pub open spec fn members_among(
    records: Seq<GroupMembersView>,
    manager: PackageManager,
    group: Seq<char>,
    end: int,
) -> Option<Seq<Seq<char>>>
    decreases end,
{
    if end <= 0 || end > records.len() {
        None
    } else if records[end - 1].manager == manager && records[end - 1].group == group {
        Some(records[end - 1].packages)
    } else {
        members_among(records, manager, group, end - 1)
    }
}

/// What was found at a path as the latest observation among the first `end` gives it.
pub open spec fn observed_among(paths: Seq<ObservationView>, path: Seq<char>, end: int) -> Option<
    Option<LiveEntryView>,
>
    decreases end,
{
    if end <= 0 || end > paths.len() {
        None
    } else if paths[end - 1].path == path {
        Some(paths[end - 1].entry)
    } else {
        observed_among(paths, path, end - 1)
    }
}

impl SystemStateView {
    /// The state of a run that has found out nothing yet.
    pub open spec fn empty() -> SystemStateView {
        SystemStateView {
            packages: PackageSetsView::empty(),
            explicit_packages: PackageSetsView::empty(),
            detected_package_groups: PackageSetsView::empty(),
            group_packages: Seq::empty(),
            paths: Seq::empty(),
        }
    }

    /// The packages of a package group, where they have been recorded.
    pub open spec fn members(self, manager: PackageManager, group: Seq<char>) -> Option<
        Seq<Seq<char>>,
    > {
        members_among(self.group_packages, manager, group, self.group_packages.len() as int)
    }

    /// What was found at a path: `None` where nobody has looked,
    /// `Some(None)` where nothing is there.
    pub open spec fn observed(self, path: Seq<char>) -> Option<Option<LiveEntryView>> {
        observed_among(self.paths, path, self.paths.len() as int)
    }
}

impl View for SystemState {
    type V = SystemStateView;

    open spec fn view(&self) -> SystemStateView {
        SystemStateView {
            packages: self.packages@,
            explicit_packages: self.explicit_packages@,
            detected_package_groups: self.detected_package_groups@,
            group_packages: crate::changeset::views(self.group_packages@),
            paths: crate::changeset::views(self.paths@),
        }
    }
}

impl SystemState {
    /// The state of a run that has found out nothing yet.
    pub fn new() -> (state: SystemState)
        ensures
            state@ == SystemStateView::empty(),
    {
        let state = SystemState {
            packages: PackageSets::new(),
            explicit_packages: PackageSets::new(),
            detected_package_groups: PackageSets::new(),
            group_packages: Vec::new(),
            paths: Vec::new(),
        };
        assert(state@.group_packages =~= Seq::empty());
        assert(state@.paths =~= Seq::empty());
        state
    }

    /// All installed packages of a manager, dependencies included, where
    /// they have been recorded.
    pub fn packages(&self, manager: PackageManager) -> (packages: Option<Vec<String>>)
        ensures
            names_of(packages) == self@.packages.get(manager),
    {
        match self.packages.get(manager) {
            Some(names) => Some(clone_texts(names)),
            None => None,
        }
    }

    /// The packages of a manager that were installed on request, where they
    /// have been recorded.
    pub fn explicit_packages(&self, manager: PackageManager) -> (packages: Option<Vec<String>>)
        ensures
            names_of(packages) == self@.explicit_packages.get(manager),
    {
        match self.explicit_packages.get(manager) {
            Some(names) => Some(clone_texts(names)),
            None => None,
        }
    }

    /// Records what is installed for a manager, in place of what was
    /// recorded for it before: all packages, and those installed on request.
    pub fn update_packages(&mut self, manager: PackageManager, all: Vec<String>, explicit: Vec<String>)
        ensures
            final(self)@ == (SystemStateView {
                packages: old(self)@.packages.with(manager, texts(all@)),
                explicit_packages: old(self)@.explicit_packages.with(manager, texts(explicit@)),
                ..old(self)@
            }),
    {
        self.packages.insert(manager, all);
        self.explicit_packages.insert(manager, explicit);
    }

    /// The names of the installed package groups of a manager, where they
    /// have been recorded.
    pub fn detected_package_groups(&self, manager: PackageManager) -> (groups: Option<Vec<String>>)
        ensures
            names_of(groups) == self@.detected_package_groups.get(manager),
    {
        match self.detected_package_groups.get(manager) {
            Some(names) => Some(clone_texts(names)),
            None => None,
        }
    }

    /// Records the names of the installed package groups of a manager.
    pub fn update_package_groups(&mut self, manager: PackageManager, groups: Vec<String>)
        ensures
            final(self)@ == (SystemStateView {
                detected_package_groups: old(self)@.detected_package_groups.with(
                    manager,
                    texts(groups@),
                ),
                ..old(self)@
            }),
    {
        self.detected_package_groups.insert(manager, groups);
    }

    /// The packages of a package group, where they have been recorded.
    pub fn group_packages(&self, manager: PackageManager, group: &String) -> (packages: Option<
        Vec<String>,
    >)
        ensures
            names_of(packages) == self@.members(manager, group@),
    {
        let mut end = self.group_packages.len();
        while end > 0
            invariant
                end <= self.group_packages.len(),
                self@.members(manager, group@) == members_among(
                    self@.group_packages,
                    manager,
                    group@,
                    end as int,
                ),
            decreases end,
        {
            let record = &self.group_packages[end - 1];
            assert(self@.group_packages[end - 1] == record@);
            if record.manager == manager && record.group == *group {
                return Some(clone_texts(&record.packages));
            }
            end -= 1;
        }
        None
    }

    /// Records the packages of a package group.
    pub fn update_group_packages(
        &mut self,
        manager: PackageManager,
        group: String,
        packages: Vec<String>,
    )
        ensures
            final(self)@ == (SystemStateView {
                group_packages: old(self)@.group_packages.push(
                    GroupMembersView { manager, group: group@, packages: texts(packages@) },
                ),
                ..old(self)@
            }),
            final(self)@.members(manager, group@) == Some(texts(packages@)),
    {
        let record = GroupMembers { manager, group, packages };
        proof {
            crate::changeset::lemma_views_push(self.group_packages@, record);
        }
        self.group_packages.push(record);
    }

    /// What was found at a path: `None` where nobody has looked,
    /// `Some(None)` where nothing is there.
    pub fn observed(&self, path: &String) -> (found: Option<&Option<LiveEntry>>)
        ensures
            match found {
                Some(entry) => self@.observed(path@) == Some(
                    match *entry {
                        Some(entry) => Some(entry@),
                        None => None,
                    },
                ),
                None => self@.observed(path@) is None,
            },
    {
        let mut end = self.paths.len();
        while end > 0
            invariant
                end <= self.paths.len(),
                self@.observed(path@) == observed_among(self@.paths, path@, end as int),
            decreases end,
        {
            let observation = &self.paths[end - 1];
            assert(self@.paths[end - 1] == observation@);
            if observation.path == *path {
                return Some(&observation.entry);
            }
            end -= 1;
        }
        None
    }

    /// Records what was found at a path.
    pub fn observe(&mut self, path: String, entry: Option<LiveEntry>)
        ensures
            final(self)@ == (SystemStateView {
                paths: old(self)@.paths.push(
                    (Observation { path, entry })@,
                ),
                ..old(self)@
            }),
            final(self)@.observed(path@) == Some(
                match entry {
                    Some(entry) => Some(entry@),
                    None => None,
                },
            ),
    {
        let observation = Observation { path, entry };
        proof {
            crate::changeset::lemma_views_push(self.paths@, observation);
        }
        self.paths.push(observation);
    }
}

} // verus!
