//! The ordered set of operations that a run wants to perform.

use vstd::prelude::*;

use crate::error::ErrorView;
use crate::handlers::packages::PackageManager;
use crate::text::text_of;

pub mod compiled_state;
pub mod helper;
pub mod host_to_state;
pub mod laws;
pub mod state_to_host;
pub mod state_to_state;
pub mod tree;

verus! {

/// The value of each item of a list.
pub open spec fn views<T: View>(list: Seq<T>) -> Seq<T::V> {
    list.map_values(|item: T| item@)
}

/// The values of two lists, one after the other, are the values of the joined list.
pub proof fn lemma_views_add<T: View>(one: Seq<T>, two: Seq<T>)
    ensures
        views(one + two) == views(one) + views(two),
{
    assert(views(one + two) =~= views(one) + views(two));
}

/// The values of a list with one more item.
pub proof fn lemma_views_push<T: View>(list: Seq<T>, item: T)
    ensures
        views(list.push(item)) == views(list).push(item@),
{
    assert(views(list.push(item)) =~= views(list).push(item@));
}

/// Two lists of operations, one after the other, where both could be made:
/// else the reason for which the first, or with the first made the second,
/// could not.
pub open spec fn chain<T>(
    first: Result<Seq<T>, ErrorView>,
    second: Result<Seq<T>, ErrorView>,
) -> Result<Seq<T>, ErrorView> {
    match first {
        Err(error) => Err(error),
        Ok(head) => match second {
            Err(error) => Err(error),
            Ok(tail) => Ok(head + tail),
        },
    }
}

/// Everything a run is going to do to reach the desired state: packages to
/// remove, packages to install, and paths to create, modify or delete. Each
/// list is carried out in its order.
#[derive(Debug)]
pub struct Changeset {
    pub package_installs: Vec<PackageInstall>,
    pub package_uninstalls: Vec<PackageUninstall>,
    pub path_operations: Vec<PathOperation>,
}

/// The mathematical value of a [`Changeset`].
pub struct ChangesetView {
    pub package_installs: Seq<PackageInstallView>,
    pub package_uninstalls: Seq<PackageUninstallView>,
    pub path_operations: Seq<PathOperationView>,
}

impl View for Changeset {
    type V = ChangesetView;

    open spec fn view(&self) -> ChangesetView {
        ChangesetView {
            package_installs: views(self.package_installs@),
            package_uninstalls: views(self.package_uninstalls@),
            path_operations: views(self.path_operations@),
        }
    }
}

impl ChangesetView {
    /// The changeset without operations.
    pub open spec fn empty() -> ChangesetView {
        ChangesetView {
            package_installs: Seq::empty(),
            package_uninstalls: Seq::empty(),
            path_operations: Seq::empty(),
        }
    }

    /// Whether the changeset holds no operation.
    pub open spec fn is_empty(self) -> bool {
        self.package_installs.len() == 0 && self.package_uninstalls.len() == 0
            && self.path_operations.len() == 0
    }

    /// The operations of this changeset followed, list by list, by those of another.
    pub open spec fn merge(self, other: ChangesetView) -> ChangesetView {
        ChangesetView {
            package_installs: self.package_installs + other.package_installs,
            package_uninstalls: self.package_uninstalls + other.package_uninstalls,
            path_operations: self.path_operations + other.path_operations,
        }
    }
}

impl Default for Changeset {
    fn default() -> (changeset: Changeset)
        ensures
            changeset@ == ChangesetView::empty(),
    {
        Changeset::new()
    }
}

impl Changeset {
    /// A changeset without operations.
    pub fn new() -> (changeset: Changeset)
        ensures
            changeset@ == ChangesetView::empty(),
            changeset@.is_empty(),
    {
        let changeset = Changeset {
            package_installs: Vec::new(),
            package_uninstalls: Vec::new(),
            path_operations: Vec::new(),
        };
        assert(changeset@.package_installs =~= Seq::empty());
        assert(changeset@.package_uninstalls =~= Seq::empty());
        assert(changeset@.path_operations =~= Seq::empty());
        changeset
    }

    /// Whether the changeset holds no operation.
    pub fn is_empty(&self) -> (empty: bool)
        ensures
            empty == self@.is_empty(),
    {
        self.package_installs.is_empty() && self.package_uninstalls.is_empty()
            && self.path_operations.is_empty()
    }

    /// Appends the operations of another changeset, list by list.
    ///
    /// Every operation of both stays, in its order, those of `self` first:
    /// nothing is dropped where both hold an operation on the same package
    /// or path.
    pub fn merge(&mut self, other: Changeset)
        ensures
            final(self)@ == old(self)@.merge(other@),
    {
        let mut other = other;
        proof {
            lemma_views_add(self.package_installs@, other.package_installs@);
            lemma_views_add(self.package_uninstalls@, other.package_uninstalls@);
            lemma_views_add(self.path_operations@, other.path_operations@);
        }
        self.package_installs.append(&mut other.package_installs);
        self.package_uninstalls.append(&mut other.package_uninstalls);
        self.path_operations.append(&mut other.path_operations);
    }
}

/// A package to remove.
#[derive(Debug)]
pub struct PackageUninstall {
    pub manager: PackageManager,
    pub name: String,
}

/// The mathematical value of a [`PackageUninstall`].
pub struct PackageUninstallView {
    pub manager: PackageManager,
    pub name: Seq<char>,
}

/// The removal of each package of a list.
pub open spec fn uninstalls_of(manager: PackageManager, names: Seq<Seq<char>>) -> Seq<
    PackageUninstallView,
> {
    names.map_values(|name: Seq<char>| PackageUninstallView { manager, name })
}

/// The removal of each package of a list.
pub fn uninstalls(manager: PackageManager, names: &Vec<String>) -> (operations: Vec<PackageUninstall>)
    ensures
        views(operations@) == uninstalls_of(manager, crate::text::texts(names@)),
{
    let mut operations: Vec<PackageUninstall> = Vec::new();
    let mut index: usize = 0;
    while index < names.len()
        invariant
            index <= names.len(),
            operations.len() == index,
            forall|i: int|
                0 <= i < index ==> (#[trigger] operations@[i])@ == (PackageUninstallView {
                    manager,
                    name: names@[i]@,
                }),
        decreases names.len() - index,
    {
        operations.push(PackageUninstall { manager, name: names[index].clone() });
        index += 1;
    }
    assert(views(operations@) =~= uninstalls_of(manager, crate::text::texts(names@)));
    operations
}

impl View for PackageUninstall {
    type V = PackageUninstallView;

    open spec fn view(&self) -> PackageUninstallView {
        PackageUninstallView { manager: self.manager, name: self.name@ }
    }
}

/// A package to install.
#[derive(Debug)]
pub struct PackageInstall {
    pub manager: PackageManager,
    pub name: String,
}

/// The mathematical value of a [`PackageInstall`].
pub struct PackageInstallView {
    pub manager: PackageManager,
    pub name: Seq<char>,
}

/// The installation of each package of a list.
pub open spec fn installs_of(manager: PackageManager, names: Seq<Seq<char>>) -> Seq<
    PackageInstallView,
> {
    names.map_values(|name: Seq<char>| PackageInstallView { manager, name })
}

/// The installation of each package of a list.
pub fn installs(manager: PackageManager, names: &Vec<String>) -> (operations: Vec<PackageInstall>)
    ensures
        views(operations@) == installs_of(manager, crate::text::texts(names@)),
{
    let mut operations: Vec<PackageInstall> = Vec::new();
    let mut index: usize = 0;
    while index < names.len()
        invariant
            index <= names.len(),
            operations.len() == index,
            forall|i: int|
                0 <= i < index ==> (#[trigger] operations@[i])@ == (PackageInstallView {
                    manager,
                    name: names@[i]@,
                }),
        decreases names.len() - index,
    {
        operations.push(PackageInstall { manager, name: names[index].clone() });
        index += 1;
    }
    assert(views(operations@) =~= installs_of(manager, crate::text::texts(names@)));
    operations
}

impl View for PackageInstall {
    type V = PackageInstallView;

    open spec fn view(&self) -> PackageInstallView {
        PackageInstallView { manager: self.manager, name: self.name@ }
    }
}

/// An operation on a path.
#[derive(Debug)]
pub enum PathOperation {
    File(FileOperation),
    Directory(DirectoryOperation),
}

/// The mathematical value of a [`PathOperation`].
pub enum PathOperationView {
    File(FileOperationView),
    Directory(DirectoryOperationView),
}

impl View for PathOperation {
    type V = PathOperationView;

    open spec fn view(&self) -> PathOperationView {
        match self {
            PathOperation::File(operation) => PathOperationView::File(operation@),
            PathOperation::Directory(operation) => PathOperationView::Directory(operation@),
        }
    }
}

/// The operations of a list, the last one first.
pub fn reversed(list: Vec<PathOperation>) -> (result: Vec<PathOperation>)
    ensures
        views(result@) == views(list@).reverse(),
{
    let ghost original = list@;
    let mut list = list;
    let mut result: Vec<PathOperation> = Vec::new();
    while list.len() > 0
        invariant
            list.len() + result.len() == original.len(),
            list@ == original.take(list.len() as int),
            forall|i: int|
                0 <= i < result.len() ==> #[trigger] result@[i] == original[original.len() - 1 - i],
        decreases list.len(),
    {
        let operation = list.pop().unwrap();
        result.push(operation);
        assert(list@ =~= original.take(list.len() as int));
    }
    assert(views(result@) =~= views(original).reverse());
    result
}

/// What can be done to a single file.
#[derive(Debug)]
#[allow(inconsistent_fields)]
pub enum FileOperation {
    Create { path: String, content: Vec<u8>, mode: u32, owner: String, group: String },
    /// Only the fields that are set change.
    Modify {
        path: String,
        content: Option<Vec<u8>>,
        mode: Option<u32>,
        owner: Option<String>,
        group: Option<String>,
    },
    Delete { path: String },
}

/// The mathematical value of a [`FileOperation`].
#[allow(inconsistent_fields)]
pub enum FileOperationView {
    Create { path: Seq<char>, content: Seq<u8>, mode: u32, owner: Seq<char>, group: Seq<char> },
    Modify {
        path: Seq<char>,
        content: Option<Seq<u8>>,
        mode: Option<u32>,
        owner: Option<Seq<char>>,
        group: Option<Seq<char>>,
    },
    Delete { path: Seq<char> },
}

impl View for FileOperation {
    type V = FileOperationView;

    open spec fn view(&self) -> FileOperationView {
        match self {
            FileOperation::Create { path, content, mode, owner, group } => FileOperationView::Create {
                path: path@,
                content: content@,
                mode: *mode,
                owner: owner@,
                group: group@,
            },
            FileOperation::Modify { path, content, mode, owner, group } => FileOperationView::Modify {
                path: path@,
                content: match content {
                    Some(content) => Some(content@),
                    None => None,
                },
                mode: *mode,
                owner: text_of(*owner),
                group: text_of(*group),
            },
            FileOperation::Delete { path } => FileOperationView::Delete { path: path@ },
        }
    }
}

/// What can be done to a directory.
#[derive(Debug)]
#[allow(inconsistent_fields)]
pub enum DirectoryOperation {
    Create { path: String, mode: u32, owner: String, group: String },
    /// Only the fields that are set change.
    Modify { path: String, mode: Option<u32>, owner: Option<String>, group: Option<String> },
    Delete { path: String },
}

/// The mathematical value of a [`DirectoryOperation`].
#[allow(inconsistent_fields)]
pub enum DirectoryOperationView {
    Create { path: Seq<char>, mode: u32, owner: Seq<char>, group: Seq<char> },
    Modify {
        path: Seq<char>,
        mode: Option<u32>,
        owner: Option<Seq<char>>,
        group: Option<Seq<char>>,
    },
    Delete { path: Seq<char> },
}

impl View for DirectoryOperation {
    type V = DirectoryOperationView;

    open spec fn view(&self) -> DirectoryOperationView {
        match self {
            DirectoryOperation::Create { path, mode, owner, group } => DirectoryOperationView::Create {
                path: path@,
                mode: *mode,
                owner: owner@,
                group: group@,
            },
            DirectoryOperation::Modify { path, mode, owner, group } => DirectoryOperationView::Modify {
                path: path@,
                mode: *mode,
                owner: text_of(*owner),
                group: text_of(*group),
            },
            DirectoryOperation::Delete { path } => DirectoryOperationView::Delete { path: path@ },
        }
    }
}

} // verus!
