//! Small helpers shared by the configuration types.

use vstd::prelude::*;

use crate::error::{Error, ErrorView};
use crate::text::{contains_text, text_of, texts};

verus! {

/// A path with a leading `~` replaced by the home directory.
///
/// Only a `~` that is the whole path or stands before a `/` is replaced, and
/// only where the home directory is known.
pub open spec fn home_expanded(path: Seq<char>, home: Option<Seq<char>>) -> Seq<char> {
    if path.len() > 0 && path[0] == '~' && (path.len() == 1 || path[1] == '/') && home is Some {
        home.unwrap() + path.skip(1)
    } else {
        path
    }
}

/// Calls `shellexpand::tilde_with_context` with the given home directory.
///
/// That function replaces a `~` at the start of its input by the home
/// directory when the `~` is the whole input or is followed by `/`, and
/// hands the input back unchanged otherwise, also when there is no home
/// directory. The contract states this for systems other than Windows, where
/// a `\` after the `~` counts as well.
#[verifier::external_body]
fn tilde_with_home(path: &str, home: &Option<String>) -> (expanded: String)
    ensures
        expanded@ == home_expanded(path@, text_of(*home)),
{
    shellexpand::tilde_with_context(path, || home.as_ref()).into_owned()
}

/// Expands the `~` a path starts with to the home directory.
pub fn expand_home(path: &str, home: &Option<String>) -> (expanded: String)
    ensures
        expanded@ == home_expanded(path@, text_of(*home)),
{
    tilde_with_home(path, home)
}


/// A directory that was looked for.
#[derive(Debug)]
pub enum FoundDirectory {
    /// The directory is there.
    Existing(String),
    /// The directory is not there, and is to be made.
    Create(String),
}

/// The mathematical value of a [`FoundDirectory`].
pub enum FoundDirectoryView {
    Existing(Seq<char>),
    Create(Seq<char>),
}

impl View for FoundDirectory {
    type V = FoundDirectoryView;

    open spec fn view(&self) -> FoundDirectoryView {
        match self {
            FoundDirectory::Existing(path) => FoundDirectoryView::Existing(path@),
            FoundDirectory::Create(path) => FoundDirectoryView::Create(path@),
        }
    }
}

impl FoundDirectoryView {
    /// The path of the directory.
    pub open spec fn path(self) -> Seq<char> {
        match self {
            FoundDirectoryView::Existing(path) => path,
            FoundDirectoryView::Create(path) => path,
        }
    }
}

/// The characters of each optional string of a list.
pub open spec fn optional_texts(list: Seq<Option<String>>) -> Seq<Option<Seq<char>>> {
    list.map_values(|text: Option<String>| text_of(text))
}

/// The places of a list that are known.
pub open spec fn known_places(places: Seq<Option<Seq<char>>>) -> Seq<Seq<char>>
    decreases places.len(),
{
    if places.len() == 0 {
        Seq::empty()
    } else {
        match places.last() {
            Some(place) => known_places(places.drop_last()).push(place),
            None => known_places(places.drop_last()),
        }
    }
}

/// The first place among the first `count` that exists.
pub open spec fn first_existing(places: Seq<Seq<char>>, existing: Seq<Seq<char>>, count: int) -> Option<
    Seq<char>,
>
    decreases count,
{
    if count <= 0 || count > places.len() {
        None
    } else {
        match first_existing(places, existing, count - 1) {
            Some(place) => Some(place),
            None => if existing.contains(places[count - 1]) {
                Some(places[count - 1])
            } else {
                None
            },
        }
    }
}

/// The directory of some kind, given the places where it may be and the
/// paths that exist: the first place that exists; where none does, the
/// first place, to be made, or an error if nothing is to be made.
pub open spec fn directory_among(
    places: Seq<Seq<char>>,
    existing: Seq<Seq<char>>,
    kind: Seq<char>,
    create_on_missing: bool,
) -> Result<FoundDirectoryView, ErrorView> {
    match first_existing(places, existing, places.len() as int) {
        Some(place) => Ok(FoundDirectoryView::Existing(place)),
        None => if create_on_missing && places.len() > 0 {
            Ok(FoundDirectoryView::Create(places[0]))
        } else {
            Err(ErrorView::DirectoryNotFound(kind, places))
        },
    }
}

/// Looks for a directory in a list of places, of which those that could
/// not be determined are `None`. `existing` holds the paths that exist.
pub fn find_directory(
    dirs: &Vec<Option<String>>,
    existing: &Vec<String>,
    dir_type: &str,
    create_on_missing: bool,
) -> (result: Result<FoundDirectory, Error>)
    ensures
        match directory_among(
            known_places(optional_texts(dirs@)),
            texts(existing@),
            dir_type@,
            create_on_missing,
        ) {
            Ok(directory) => result matches Ok(found) && found@ == directory,
            Err(error) => result matches Err(found) && found@ == error,
        },
{
    let ghost wanted = optional_texts(dirs@);
    let mut places: Vec<String> = Vec::new();
    let mut index: usize = 0;
    proof {
        assert(wanted.take(0) =~= Seq::empty());
        assert(texts(places@) =~= Seq::empty());
    }
    while index < dirs.len()
        invariant
            index <= dirs.len(),
            wanted == optional_texts(dirs@),
            texts(places@) == known_places(wanted.take(index as int)),
        decreases dirs.len() - index,
    {
        proof {
            assert(wanted.take(index + 1).drop_last() =~= wanted.take(index as int));
            assert(wanted.take(index + 1).last() == text_of(dirs@[index as int]));
        }
        match &dirs[index] {
            Some(place) => {
                let ghost before = places@;
                places.push(place.clone());
                assert(texts(places@) =~= texts(before).push(place@));
            },
            None => {},
        }
        index += 1;
    }
    proof {
        assert(wanted.take(index as int) =~= wanted);
    }
    let mut count: usize = 0;
    while count < places.len()
        invariant
            count <= places.len(),
            texts(places@) == known_places(optional_texts(dirs@)),
            first_existing(texts(places@), texts(existing@), count as int) is None,
        decreases places.len() - count,
    {
        if contains_text(existing, &places[count]) {
            proof {
                assert(texts(places@)[count as int] == places@[count as int]@);
                assert(first_existing(texts(places@), texts(existing@), count + 1) == Some(
                    places@[count as int]@,
                ));
                lemma_first_existing(texts(places@), texts(existing@), count + 1);
            }
            return Ok(FoundDirectory::Existing(places[count].clone()));
        }
        count += 1;
    }
    if create_on_missing && places.len() > 0 {
        Ok(FoundDirectory::Create(places[0].clone()))
    } else {
        Err(Error::DirectoryNotFound(String::from_str(dir_type), places))
    }
}

/// A place that was found among the first places is found among all.
proof fn lemma_first_existing(places: Seq<Seq<char>>, existing: Seq<Seq<char>>, count: int)
    requires
        0 <= count <= places.len(),
        first_existing(places, existing, count) is Some,
    ensures
        first_existing(places, existing, places.len() as int) == first_existing(
            places,
            existing,
            count,
        ),
    decreases places.len() - count,
{
    if count < places.len() {
        lemma_first_existing(places, existing, count + 1);
    }
}

} // verus!
