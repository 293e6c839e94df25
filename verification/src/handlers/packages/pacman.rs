//! What the listings of `pacman` say.
//!
//! `pacman --query --quiet` prints one package name on each line;
//! `pacman --query --groups` and `pacman --sync --groups` print the name of a
//! group and the name of one of its packages on each line, with a space
//! between the two.

use vstd::prelude::*;

use crate::changeset::chain;
use crate::error::{Error, ErrorView};
use crate::handlers::packages::{add_names, distinct};
use crate::text::{characters, clone_texts, find_char, lines, lines_of, position_of, texts};

verus! {

/// The part of a line before its first space; the whole line where it has none.
pub open spec fn first_field(line: Seq<char>) -> Seq<char> {
    line.subrange(0, position_of(line, ' ', 0))
}

/// The part of a line between its first space and its second, or its end;
/// `None` for a line without a space.
pub open spec fn second_field(line: Seq<char>) -> Option<Seq<char>> {
    let first = position_of(line, ' ', 0);
    if 0 <= first < line.len() {
        Some(line.subrange(first + 1, position_of(line, ' ', first + 1)))
    } else {
        None
    }
}

/// The second field of each line, or the first line that has none.
pub open spec fn second_fields(lines: Seq<Seq<char>>) -> Result<Seq<Seq<char>>, ErrorView>
    decreases lines.len(),
{
    if lines.len() == 0 {
        Ok(Seq::empty())
    } else {
        chain(
            second_fields(lines.drop_last()),
            match second_field(lines.last()) {
                Some(field) => Ok(seq![field]),
                None => Err(ErrorView::InvalidListing(lines.last())),
            },
        )
    }
}

/// What keeps the fields of the first lines from being read keeps those of
/// all lines from being read.
proof fn lemma_second_fields_error(lines: Seq<Seq<char>>, count: int)
    requires
        0 <= count <= lines.len(),
        second_fields(lines.take(count)) is Err,
    ensures
        second_fields(lines) == second_fields(lines.take(count)),
    decreases lines.len() - count,
{
    if count < lines.len() {
        assert(lines.take(count + 1).drop_last() =~= lines.take(count));
        lemma_second_fields_error(lines, count + 1);
    } else {
        assert(lines.take(count) =~= lines);
    }
}

/// The names of a list, each once.
fn unique(names: &Vec<String>) -> (set: Vec<String>)
    ensures
        texts(set@) == distinct(texts(names@)),
        texts(set@).no_duplicates(),
{
    let mut set: Vec<String> = Vec::new();
    proof {
        assert(texts(set@) =~= Seq::empty());
        assert(texts(set@) + texts(names@) =~= texts(names@));
    }
    add_names(&mut set, names);
    set
}

/// The packages that a listing of package names holds: its lines, each once.
pub fn packages(listing: &str) -> (names: Vec<String>)
    ensures
        texts(names@) == distinct(lines_of(listing@)),
        texts(names@).no_duplicates(),
{
    unique(&lines(listing))
}

/// The packages that a listing of explicitly installed packages holds: its
/// lines, each once.
pub fn explicit_packages(listing: &str) -> (names: Vec<String>)
    ensures
        texts(names@) == distinct(lines_of(listing@)),
        texts(names@).no_duplicates(),
{
    unique(&lines(listing))
}

/// The groups that a listing of groups and their packages names: the first
/// field of each line, each once.
pub fn detect_installed_groups(listing: &str) -> (groups: Vec<String>)
    ensures
        texts(groups@) == distinct(
            lines_of(listing@).map_values(|line: Seq<char>| first_field(line)),
        ),
        texts(groups@).no_duplicates(),
{
    let all = lines(listing);
    let mut fields: Vec<String> = Vec::new();
    let mut index: usize = 0;
    while index < all.len()
        invariant
            index <= all.len(),
            fields.len() == index,
            forall|i: int| 0 <= i < index ==> (#[trigger] fields@[i])@ == first_field(all@[i]@),
        decreases all.len() - index,
    {
        let line = all[index].as_str();
        let text = characters(line);
        let end = find_char(&text, ' ', 0);
        fields.push(String::from_str(line.substring_char(0, end)));
        index += 1;
    }
    assert(texts(fields@) =~= texts(all@).map_values(|line: Seq<char>| first_field(line)));
    unique(&fields)
}

/// The packages that a listing of one group names: the second field of each
/// line, each once. A line without a space is no line of such a listing.
pub fn get_packages_for_group(listing: &str) -> (result: Result<Vec<String>, Error>)
    ensures
        match second_fields(lines_of(listing@)) {
            Ok(fields) => result matches Ok(names) && texts(names@) == distinct(fields),
            Err(error) => result matches Err(found) && found@ == error,
        },
{
    let all = lines(listing);
    let ghost whole = texts(all@);
    let mut fields: Vec<String> = Vec::new();
    let mut index: usize = 0;
    proof {
        assert(whole.take(0) =~= Seq::empty());
        assert(texts(fields@) =~= Seq::empty());
    }
    while index < all.len()
        invariant
            index <= all.len(),
            whole == texts(all@),
            whole == lines_of(listing@),
            second_fields(whole.take(index as int)) == Ok::<Seq<Seq<char>>, ErrorView>(
                texts(fields@),
            ),
        decreases all.len() - index,
    {
        proof {
            assert(whole.take(index + 1).drop_last() =~= whole.take(index as int));
            assert(whole.take(index + 1).last() == all@[index as int]@);
        }
        let line = all[index].as_str();
        let text = characters(line);
        let first = find_char(&text, ' ', 0);
        if first >= text.len() {
            proof {
                lemma_second_fields_error(whole, index + 1);
            }
            return Err(Error::InvalidListing(all[index].clone()));
        }
        let second = find_char(&text, ' ', first + 1);
        let ghost before = fields@;
        fields.push(String::from_str(line.substring_char(first + 1, second)));
        proof {
            let field = second_field(all@[index as int]@).unwrap();
            assert(texts(fields@) =~= texts(before) + seq![field]);
        }
        index += 1;
    }
    proof {
        assert(whole.take(index as int) =~= whole);
    }
    Ok(unique(&fields))
}


// ---------------------------------------------------------------------------
// Command lines
// ---------------------------------------------------------------------------

/// A command line: the words before the names, and the names.
pub(crate) fn command(words: Vec<String>, names: &Vec<String>) -> (line: Vec<String>)
    ensures
        texts(line@) == texts(words@) + texts(names@),
{
    let mut line = words;
    let mut rest = clone_texts(names);
    proof {
        assert(texts(line@ + rest@) =~= texts(line@) + texts(rest@));
    }
    line.append(&mut rest);
    line
}

/// The command line that lists all installed packages of the repositories,
/// dependencies included.
pub fn packages_command() -> (line: Vec<String>)
    ensures
        texts(line@) == seq!["pacman"@, "--query"@, "--quiet"@, "--native"@],
{
    let mut line: Vec<String> = Vec::new();
    line.push(String::from_str("pacman"));
    line.push(String::from_str("--query"));
    line.push(String::from_str("--quiet"));
    line.push(String::from_str("--native"));
    assert(texts(line@) =~= seq!["pacman"@, "--query"@, "--quiet"@, "--native"@]);
    line
}

/// The command line that lists the packages of the repositories that were
/// installed on request.
pub fn explicit_packages_command() -> (line: Vec<String>)
    ensures
        texts(line@) == seq!["pacman"@, "--query"@, "--quiet"@, "--explicit"@, "--native"@],
{
    let mut line: Vec<String> = Vec::new();
    line.push(String::from_str("pacman"));
    line.push(String::from_str("--query"));
    line.push(String::from_str("--quiet"));
    line.push(String::from_str("--explicit"));
    line.push(String::from_str("--native"));
    assert(texts(line@) =~= seq!["pacman"@, "--query"@, "--quiet"@, "--explicit"@, "--native"@]);
    line
}

/// The command line that lists the installed package groups with their packages.
pub fn groups_command() -> (line: Vec<String>)
    ensures
        texts(line@) == seq!["pacman"@, "--query"@, "--groups"@, "--quiet"@],
{
    let mut line: Vec<String> = Vec::new();
    line.push(String::from_str("pacman"));
    line.push(String::from_str("--query"));
    line.push(String::from_str("--groups"));
    line.push(String::from_str("--quiet"));
    assert(texts(line@) =~= seq!["pacman"@, "--query"@, "--groups"@, "--quiet"@]);
    line
}

/// The command line that lists the packages of a package group.
pub fn group_packages_command(group: &str) -> (line: Vec<String>)
    ensures
        texts(line@) == seq!["pacman"@, "--sync"@, "--groups"@, group@],
{
    let mut line: Vec<String> = Vec::new();
    line.push(String::from_str("pacman"));
    line.push(String::from_str("--sync"));
    line.push(String::from_str("--groups"));
    line.push(String::from_str(group));
    assert(texts(line@) =~= seq!["pacman"@, "--sync"@, "--groups"@, group@]);
    line
}

/// The command line that installs packages, and asks nothing.
pub fn install_command(names: &Vec<String>) -> (line: Vec<String>)
    ensures
        texts(line@) == seq!["pacman"@, "--sync"@, "--refresh"@, "--noconfirm"@] + texts(names@),
{
    let mut words: Vec<String> = Vec::new();
    words.push(String::from_str("pacman"));
    words.push(String::from_str("--sync"));
    words.push(String::from_str("--refresh"));
    words.push(String::from_str("--noconfirm"));
    assert(texts(words@) =~= seq!["pacman"@, "--sync"@, "--refresh"@, "--noconfirm"@]);
    command(words, names)
}

/// The command line that removes packages, and asks nothing. No backup of
/// their configuration is kept: it is deployed from here.
pub fn uninstall_command(names: &Vec<String>) -> (line: Vec<String>)
    ensures
        texts(line@) == seq!["pacman"@, "--remove"@, "--nosave"@, "--noconfirm"@] + texts(names@),
{
    let mut words: Vec<String> = Vec::new();
    words.push(String::from_str("pacman"));
    words.push(String::from_str("--remove"));
    words.push(String::from_str("--nosave"));
    words.push(String::from_str("--noconfirm"));
    assert(texts(words@) =~= seq!["pacman"@, "--remove"@, "--nosave"@, "--noconfirm"@]);
    command(words, names)
}

} // verus!
