//! Directories of the state tree.

use vstd::prelude::*;

use crate::config::directory::{DirectoryConfig, DirectoryConfigView};
use crate::config::file::FileConfigView;
use crate::constants::{Defaults, DefaultsView};
use crate::paths::{is_absolute, join, joined};
use crate::state::file::{entry_view, Entry, EntryView, File, FileView};
use crate::state::source::{SourceDirectory, SourceEntry, SourceFile};
use crate::text::{clone_text, contains_text, text_of, texts};

verus! {

/// A directory to deploy, with what it holds.
#[derive(Debug)]
pub struct Directory {
    /// The path of the source directory, from the directory of its host or
    /// group. The destination is derived from it.
    pub relative_path: String,
    pub entries: Vec<Entry>,
    pub config: DirectoryConfig,
}

/// The mathematical value of a [`Directory`].
pub struct DirectoryView {
    pub relative_path: Seq<char>,
    pub entries: Seq<EntryView>,
    pub config: DirectoryConfigView,
}

/// The value of each entry of a list.
pub open spec fn entry_views(entries: Seq<Entry>) -> Seq<EntryView> {
    Seq::new(entries.len(), |i: int| entry_view(entries[i]))
}

impl View for Directory {
    type V = DirectoryView;

    open spec fn view(&self) -> DirectoryView {
        DirectoryView {
            relative_path: self.relative_path@,
            entries: entry_views(self.entries@),
            config: self.config@,
        }
    }
}

/// The value of a directory entry is the value of its directory.
pub proof fn lemma_directory_entry_view(directory: Directory)
    ensures
        entry_view(Entry::Directory(directory)) == EntryView::Directory(directory@),
{
    let view = entry_view(Entry::Directory(directory));
    assert(view->Directory_0.entries =~= directory@.entries);
}

impl DirectoryView {
    /// Where the directory goes: the destination override, where there is
    /// one, else the relative path, taken from `root`. An absolute path
    /// stands for itself.
    pub open spec fn file_path(self, root: Seq<char>, defaults: DefaultsView) -> Seq<char> {
        joined(
            root,
            match self.config.path(defaults) {
                Some(path) => path,
                None => self.relative_path,
            },
        )
    }
}

impl Directory {
    /// An empty directory with the settings of a directory that names none.
    pub fn new(path: &str) -> (directory: Directory)
        ensures
            directory@ == (DirectoryView {
                relative_path: path@,
                entries: Seq::empty(),
                config: DirectoryConfigView::empty(),
            }),
    {
        let directory = Directory {
            relative_path: String::from_str(path),
            entries: Vec::new(),
            config: DirectoryConfig::default(),
        };
        assert(directory@.entries =~= Seq::empty());
        directory
    }

    /// Where the directory goes, seen from the target directory `root`.
    pub fn file_path(&self, root: &str, defaults: &Defaults) -> (path: String)
        ensures
            path@ == self@.file_path(root@, defaults@),
    {
        match self.config.path(defaults) {
            Some(path) => join(root, path.as_str()),
            None => join(root, self.relative_path.as_str()),
        }
    }
}


// ---------------------------------------------------------------------------
// From what was read to the state tree
// ---------------------------------------------------------------------------

/// The files of a directory that hold its settings and are no entries.
pub open spec fn directory_files() -> Seq<Seq<char>> {
    seq!["bois.yml"@]
}

/// The destination override of an entry whose parent has one: the entry
/// goes into the place that the override names.
pub open spec fn override_below(path_override: Option<Seq<char>>, name: Seq<char>) -> Option<
    Seq<char>,
> {
    match path_override {
        Some(path) => Some(joined(path, name)),
        None => None,
    }
}

/// The entry that a source entry stands for, in a directory with the given
/// relative path and, where it has one, destination override.
///
/// The override reaches a file only where the file sets no path of its own.
pub open spec fn entry_of(
    source: SourceEntry,
    parent: Seq<char>,
    path_override: Option<Seq<char>>,
    defaults: DefaultsView,
) -> EntryView
    decreases source,
{
    let relative_path = joined(parent, source.spec_name());
    let inherited = override_below(path_override, source.spec_name());
    match source {
        SourceEntry::File(file) => EntryView::File(
            FileView {
                relative_path,
                config: if file.config@.path is None && inherited is Some {
                    FileConfigView { path: inherited, ..file.config@ }
                } else {
                    file.config@
                },
                content: file.content@,
                mode: file.mode,
            },
        ),
        SourceEntry::Directory(directory) => EntryView::Directory(
            directory_of(directory, relative_path, inherited, defaults),
        ),
    }
}

/// The directory that a source directory stands for.
///
/// A path that the settings of the directory set is the destination
/// override of everything below it. A directory that sets none takes the
/// override that reaches it from above, and hands it on.
pub open spec fn directory_of(
    source: SourceDirectory,
    relative_path: Seq<char>,
    path_override: Option<Seq<char>>,
    defaults: DefaultsView,
) -> DirectoryView
    decreases source,
{
    let config = match source.config {
        Some(config) => config@,
        None => DirectoryConfigView::empty(),
    };
    DirectoryView {
        relative_path,
        entries: entries_of(
            source.entries@,
            relative_path,
            match config.path(defaults) {
                Some(path) => Some(path),
                None => path_override,
            },
            defaults,
            directory_files(),
        ),
        config: if config.path is None && path_override is Some {
            DirectoryConfigView { path: path_override, ..config }
        } else {
            config
        },
    }
}

/// The entries that the source entries of a directory stand for, in their
/// order, without those whose name is among `skipped`.
pub open spec fn entries_of(
    sources: Seq<SourceEntry>,
    parent: Seq<char>,
    path_override: Option<Seq<char>>,
    defaults: DefaultsView,
    skipped: Seq<Seq<char>>,
) -> Seq<EntryView>
    decreases sources,
{
    if sources.len() == 0 {
        Seq::empty()
    } else {
        let before = entries_of(sources.drop_last(), parent, path_override, defaults, skipped);
        if skipped.contains(sources.last().spec_name()) {
            before
        } else {
            before.push(entry_of(sources.last(), parent, path_override, defaults))
        }
    }
}

/// A file that sets neither a path nor a new name, in a directory whose
/// destination is an absolute path, goes below that path, wherever the
/// target directory is.
pub proof fn law_file_goes_below_the_path_of_its_directory(
    file: SourceFile,
    parent: Seq<char>,
    path: Seq<char>,
    root: Seq<char>,
    defaults: DefaultsView,
)
    requires
        is_absolute(path),
        file.config@.path is None,
        file.config@.rename is None,
    ensures
        entry_of(SourceEntry::File(file), parent, Some(path), defaults) matches EntryView::File(
            found,
        ) && found.file_path(root, defaults) == joined(path, file.name@),
{
    let place = joined(path, file.name@);
    assert(is_absolute(place));
}

/// The values of a list of entries with one more entry.
pub proof fn lemma_entry_views_push(entries: Seq<Entry>, entry: Entry)
    ensures
        entry_views(entries.push(entry)) == entry_views(entries).push(entry@),
{
    assert(entry_views(entries.push(entry)) =~= entry_views(entries).push(entry@));
}

/// Adds to a directory the entry that a source entry stands for.
///
/// `relative_path` is the relative path of the directory, `path_override`
/// the destination override that holds in it.
pub fn read_entry(
    relative_path: &str,
    entry: &SourceEntry,
    directory: &mut Directory,
    path_override: Option<String>,
    defaults: &Defaults,
)
    ensures
        final(directory)@ == (DirectoryView {
            entries: old(directory)@.entries.push(
                entry_of(*entry, relative_path@, text_of(path_override), defaults@),
            ),
            ..old(directory)@
        }),
    decreases entry,
{
    let name = entry.name();
    let relative_path = join(relative_path, name.as_str());
    let inherited = match path_override {
        Some(path) => Some(join(path.as_str(), name.as_str())),
        None => None,
    };
    match entry {
        SourceEntry::Directory(source) => {
            let sub_directory = read_directory(source, relative_path.as_str(), inherited, defaults);
            proof {
                lemma_directory_entry_view(sub_directory);
                lemma_entry_views_push(directory.entries@, Entry::Directory(sub_directory));
            }
            directory.entries.push(Entry::Directory(sub_directory));
        },
        SourceEntry::File(source) => {
            let mut file = File {
                relative_path,
                config: source.config.clone(),
                content: source.content.clone(),
                mode: source.mode,
            };
            match inherited {
                Some(path) => {
                    if file.config.path.is_none() {
                        file.config.override_path(path);
                    }
                },
                None => {},
            }
            proof {
                lemma_entry_views_push(directory.entries@, Entry::File(file));
            }
            directory.entries.push(Entry::File(file));
        },
    }
}

/// Adds to a directory the entries that source entries stand for, without
/// those whose name is among `skipped`.
pub fn read_entries(
    relative_path: &str,
    sources: &Vec<SourceEntry>,
    directory: &mut Directory,
    path_override: &Option<String>,
    defaults: &Defaults,
    skipped: &Vec<String>,
)
    ensures
        final(directory)@ == (DirectoryView {
            entries: old(directory)@.entries + entries_of(
                sources@,
                relative_path@,
                text_of(*path_override),
                defaults@,
                texts(skipped@),
            ),
            ..old(directory)@
        }),
    decreases sources,
{
    let ghost start = directory@;
    let mut index: usize = 0;
    proof {
        assert(sources@.take(0) =~= Seq::empty());
        assert(start.entries + Seq::<EntryView>::empty() =~= start.entries);
    }
    while index < sources.len()
        invariant
            index <= sources.len(),
            directory@ == (DirectoryView {
                entries: start.entries + entries_of(
                    sources@.take(index as int),
                    relative_path@,
                    text_of(*path_override),
                    defaults@,
                    texts(skipped@),
                ),
                ..start
            }),
        decreases sources.len() - index,
    {
        let ghost before = entries_of(
            sources@.take(index as int),
            relative_path@,
            text_of(*path_override),
            defaults@,
            texts(skipped@),
        );
        proof {
            assert(sources@.take(index + 1).drop_last() =~= sources@.take(index as int));
            assert(sources@.take(index + 1).last() == sources@[index as int]);
        }
        let source = &sources[index];
        if !contains_text(skipped, source.name()) {
            read_entry(relative_path, source, directory, clone_text(path_override), defaults);
            proof {
                let entry = entry_of(*source, relative_path@, text_of(*path_override), defaults@);
                assert((start.entries + before).push(entry) =~= start.entries + before.push(entry));
            }
        }
        index += 1;
    }
    proof {
        assert(sources@.take(index as int) =~= sources@);
    }
}

/// The directory that a source directory stands for, with everything below it.
pub fn read_directory(
    source: &SourceDirectory,
    relative_path: &str,
    path_override: Option<String>,
    defaults: &Defaults,
) -> (directory: Directory)
    ensures
        directory@ == directory_of(*source, relative_path@, text_of(path_override), defaults@),
    decreases source,
{
    let mut directory_config = match &source.config {
        Some(config) => config.clone(),
        None => DirectoryConfig::default(),
    };
    let mut path_override = path_override;
    match directory_config.path(defaults) {
        Some(path) => {
            path_override = Some(path);
        },
        None => {
            match &path_override {
                Some(path) => {
                    directory_config.override_path(path.clone());
                },
                None => {},
            }
        },
    }
    let mut directory = Directory {
        relative_path: String::from_str(relative_path),
        entries: Vec::new(),
        config: directory_config,
    };
    let mut skipped: Vec<String> = Vec::new();
    skipped.push(String::from_str("bois.yml"));
    proof {
        assert(directory@.entries =~= Seq::empty());
        assert(texts(skipped@) =~= directory_files());
    }
    read_entries(relative_path, &source.entries, &mut directory, &path_override, defaults, &skipped);
    proof {
        let found = entries_of(
            source.entries@,
            relative_path@,
            text_of(path_override),
            defaults@,
            directory_files(),
        );
        assert(Seq::<EntryView>::empty() + found =~= found);
    }
    directory
}

} // verus!
