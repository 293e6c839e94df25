//! A directory of the configuration as it was read from disk, before it
//! becomes part of the state tree.

use vstd::prelude::*;

use crate::config::directory::DirectoryConfig;
use crate::config::file::FileConfig;

verus! {

/// An entry of a source directory.
#[derive(Debug)]
pub enum SourceEntry {
    File(SourceFile),
    Directory(SourceDirectory),
}

/// A file as it was read: its name, the mode it has on disk, the settings
/// from its configuration block, and its content without the block, rendered
/// where the settings say that it is a template.
#[derive(Debug)]
pub struct SourceFile {
    pub name: String,
    pub mode: u32,
    pub config: FileConfig,
    pub content: String,
}

/// A directory as it was read: its name, the settings from the `bois.yml`
/// in it, where there is one, and its entries.
#[derive(Debug)]
pub struct SourceDirectory {
    pub name: String,
    pub config: Option<DirectoryConfig>,
    pub entries: Vec<SourceEntry>,
}

impl SourceEntry {
    /// The name of the entry.
    pub open spec fn spec_name(self) -> Seq<char> {
        match self {
            SourceEntry::File(file) => file.name@,
            SourceEntry::Directory(directory) => directory.name@,
        }
    }

    /// The name of the entry.
    pub fn name(&self) -> (name: &String)
        ensures
            name@ == self.spec_name(),
    {
        match self {
            SourceEntry::File(file) => &file.name,
            SourceEntry::Directory(directory) => &directory.name,
        }
    }
}

} // verus!
