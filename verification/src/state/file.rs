//! The entries of the state tree: files, and directories of entries.

use vstd::prelude::*;

use crate::config::file::{FileConfig, FileConfigView};
use crate::constants::{Defaults, DefaultsView};
use crate::paths::{file_name_replaced, join, joined, set_file_name};
use crate::state::directory::{Directory, DirectoryView};
use crate::error::{Error, ErrorView};
use crate::state::file_parser::{config_file, parse_file, ParsedFile};

verus! {

/// An entry of the state tree.
#[derive(Debug)]
pub enum Entry {
    File(File),
    Directory(Directory),
}

/// The mathematical value of an [`Entry`].
pub enum EntryView {
    File(FileView),
    Directory(DirectoryView),
}

/// The value of an entry.
pub open spec fn entry_view(entry: Entry) -> EntryView
    decreases entry,
{
    match entry {
        Entry::File(file) => EntryView::File(file@),
        Entry::Directory(directory) => EntryView::Directory(
            DirectoryView {
                relative_path: directory.relative_path@,
                entries: Seq::new(
                    directory.entries@.len(),
                    |i: int|
                        if 0 <= i < directory.entries@.len() {
                            entry_view(directory.entries@[i])
                        } else {
                            arbitrary()
                        },
                ),
                config: directory.config@,
            },
        ),
    }
}

impl View for Entry {
    type V = EntryView;

    open spec fn view(&self) -> EntryView {
        entry_view(*self)
    }
}

/// A file to deploy.
#[derive(Debug)]
pub struct File {
    /// The path of the source file, from the directory of its host or group.
    /// The destination is derived from it.
    pub relative_path: String,
    /// The settings from the configuration block of the file.
    pub config: FileConfig,
    /// The content to deploy: that of the source file without its configuration block.
    pub content: String,
    /// The mode of the source file, for a file whose settings name none.
    pub mode: u32,
}

/// The mathematical value of a [`File`].
pub struct FileView {
    pub relative_path: Seq<char>,
    pub config: FileConfigView,
    pub content: Seq<char>,
    pub mode: u32,
}

impl View for File {
    type V = FileView;

    open spec fn view(&self) -> FileView {
        FileView {
            relative_path: self.relative_path@,
            config: self.config@,
            content: self.content@,
            mode: self.mode,
        }
    }
}

impl FileView {
    /// Where the file goes.
    ///
    /// The destination override, where there is one, else the relative path,
    /// is taken from `root`: an absolute path stands for itself. The new
    /// name, where there is one, then replaces the file name.
    pub open spec fn file_path(self, root: Seq<char>, defaults: DefaultsView) -> Seq<char> {
        let place = joined(
            root,
            match self.config.path(defaults) {
                Some(path) => path,
                None => self.relative_path,
            },
        );
        match self.config.rename {
            Some(name) => file_name_replaced(place, name),
            None => place,
        }
    }

    /// The mode of the file: the one its settings name, or that of its source.
    pub open spec fn mode(self) -> u32 {
        match self.config.mode {
            Some(mode) => mode,
            None => self.mode,
        }
    }
}

impl Clone for File {
    fn clone(&self) -> (copy: File)
        ensures
            copy@ == self@,
    {
        File {
            relative_path: self.relative_path.clone(),
            config: self.config.clone(),
            content: self.content.clone(),
            mode: self.mode,
        }
    }
}

impl File {
    /// Where the file goes, seen from the target directory `root`.
    pub fn file_path(&self, root: &str, defaults: &Defaults) -> (path: String)
        ensures
            path@ == self@.file_path(root@, defaults@),
    {
        let place = match self.config.path(defaults) {
            Some(path) => join(root, path.as_str()),
            None => join(root, self.relative_path.as_str()),
        };
        match &self.config.rename {
            Some(name) => set_file_name(place.as_str(), name.as_str()),
            None => place,
        }
    }

    /// The mode of the file: the one its settings name, or that of its source.
    pub fn mode(&self) -> (mode: u32)
        ensures
            mode == self@.mode(),
    {
        match self.config.mode {
            Some(mode) => mode,
            None => self.mode,
        }
    }
}

/// Reads the text of the file at `path`: splits it at its configuration
/// block. A block that is opened and not closed is an error that names the
/// file.
pub fn read_file<'s>(path: &str, text: &'s str) -> (result: Result<ParsedFile<'s>, Error>)
    ensures
        match parse_file(text@) {
            Ok(parsed) => result matches Ok(found) && found@ == parsed,
            Err(error) => result matches Err(found) && found@ == ErrorView::InvalidConfigBlock(
                path@,
                error,
            ),
        },
{
    match config_file(text) {
        Ok(parsed) => Ok(parsed),
        Err(error) => Err(Error::InvalidConfigBlock(String::from_str(path), error)),
    }
}

} // verus!
