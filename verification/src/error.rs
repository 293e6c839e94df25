//! What keeps a pass from giving its result.

use vstd::prelude::*;

use crate::handlers::packages::PackageManager;
use crate::state::file_parser::ParseError;

verus! {

/// The reasons for which a function of this library gives no result.
///
/// The first four name a fact about the live system that the
/// [`SystemState`](crate::system_state::SystemState) does not hold yet: the
/// caller looks the fact up, records it and calls again.
#[derive(Debug)]
pub enum Error {
    /// The installed packages of a manager have not been recorded.
    PackagesNotLoaded(PackageManager),
    /// The installed package groups of a manager have not been recorded.
    GroupsNotLoaded(PackageManager),
    /// The packages of a package group have not been recorded.
    GroupMembersNotLoaded(PackageManager, String),
    /// What the live system holds at a path has not been recorded.
    PathNotObserved(String),
    /// A path that a file is to go to holds something whose content cannot be read.
    UnreadableFile(String),
    /// Nothing is known of how to talk to this package manager.
    UnsupportedManager(PackageManager),
    /// A host names a group that is not there.
    UnknownGroup(String),
    /// The configuration block of a file is malformed.
    InvalidConfigBlock(String, ParseError),
    /// The listing of a package manager has a line it should not have.
    InvalidListing(String),
    /// The configuration names no machine, and the machine has no name of its own.
    NoHostname,
    /// None of the places where a directory of some kind is looked for holds one.
    DirectoryNotFound(String, Vec<String>),
}

/// The mathematical value of an [`Error`].
pub enum ErrorView {
    PackagesNotLoaded(PackageManager),
    GroupsNotLoaded(PackageManager),
    GroupMembersNotLoaded(PackageManager, Seq<char>),
    PathNotObserved(Seq<char>),
    UnreadableFile(Seq<char>),
    UnsupportedManager(PackageManager),
    UnknownGroup(Seq<char>),
    InvalidConfigBlock(Seq<char>, ParseError),
    InvalidListing(Seq<char>),
    NoHostname,
    DirectoryNotFound(Seq<char>, Seq<Seq<char>>),
}

impl View for Error {
    type V = ErrorView;

    open spec fn view(&self) -> ErrorView {
        match self {
            Error::PackagesNotLoaded(manager) => ErrorView::PackagesNotLoaded(*manager),
            Error::GroupsNotLoaded(manager) => ErrorView::GroupsNotLoaded(*manager),
            Error::GroupMembersNotLoaded(manager, group) => ErrorView::GroupMembersNotLoaded(
                *manager,
                group@,
            ),
            Error::PathNotObserved(path) => ErrorView::PathNotObserved(path@),
            Error::UnreadableFile(path) => ErrorView::UnreadableFile(path@),
            Error::UnsupportedManager(manager) => ErrorView::UnsupportedManager(*manager),
            Error::UnknownGroup(name) => ErrorView::UnknownGroup(name@),
            Error::InvalidConfigBlock(path, error) => ErrorView::InvalidConfigBlock(path@, *error),
            Error::InvalidListing(line) => ErrorView::InvalidListing(line@),
            Error::NoHostname => ErrorView::NoHostname,
            Error::DirectoryNotFound(kind, places) => ErrorView::DirectoryNotFound(
                kind@,
                crate::text::texts(places@),
            ),
        }
    }
}

} // verus!
