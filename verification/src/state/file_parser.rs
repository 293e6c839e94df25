//! Splits the text of a file into the content before an embedded
//! configuration block, the block itself and the content after it.
//!
//! A block is a run of commented lines between two delimiter lines. A
//! delimiter line is a comment prefix at the start of a line, followed by the
//! keyword `bois_config` with nothing but spaces and tabs around it:
//!
//! ```text
//! # bois_config
//! # template: true
//! # bois_config
//! ```
//!
//! Lines end at `\n`; every other character, `\r` included, is ordinary text.

use vstd::prelude::*;

use crate::text::{
    characters, find_char, is_whitespace, is_whitespace_char, lemma_position_of,
    lemma_whitespace_run_bounds, position_of, whitespace_run,
};

verus! {

/// The three parts of a file, as slices of its text.
#[derive(Debug)]
pub struct ParsedFile<'s> {
    /// The text before the block, without the newline that ends it.
    /// `None` where the file starts with the block.
    pub pre_config_block: Option<&'s str>,
    /// The lines of the block without their comment prefixes and common indentation.
    pub config_block: Option<String>,
    /// The text after the block. `None` where nothing follows it.
    pub post_config_block: Option<&'s str>,
}

/// The mathematical value of a [`ParsedFile`].
pub struct ParsedFileView {
    pub pre_config_block: Option<Seq<char>>,
    pub config_block: Option<Seq<char>>,
    pub post_config_block: Option<Seq<char>>,
}

impl<'s> View for ParsedFile<'s> {
    type V = ParsedFileView;

    open spec fn view(&self) -> ParsedFileView {
        ParsedFileView {
            pre_config_block: match self.pre_config_block {
                Some(text) => Some(text@),
                None => None,
            },
            config_block: match self.config_block {
                Some(text) => Some(text@),
                None => None,
            },
            post_config_block: match self.post_config_block {
                Some(text) => Some(text@),
                None => None,
            },
        }
    }
}

/// A line of a file as the block grammar sees it.
#[derive(Debug)]
pub enum Line {
    ConfigDelimiter,
    Line(String),
}

/// A block was opened and not properly continued or closed.
///
/// `offset` counts the characters before the line that is neither a commented
/// line of the block nor the delimiter line that closes it.
#[derive(Clone, Copy, Debug, PartialEq, Eq, Structural)]
pub struct ParseError {
    pub offset: usize,
}

// ---------------------------------------------------------------------------
// The grammar
// ---------------------------------------------------------------------------

/// The keyword of a delimiter line.
pub open spec fn keyword() -> Seq<char> {
    seq!['b', 'o', 'i', 's', '_', 'c', 'o', 'n', 'f', 'i', 'g']
}

/// Blank space inside a line: a space or a tab.
pub open spec fn is_space(c: char) -> bool {
    c == ' ' || c == '\t'
}

/// Whether `pattern` stands in `text` at position `at`.
pub open spec fn starts_with_at(text: Seq<char>, at: int, pattern: Seq<char>) -> bool {
    &&& 0 <= at
    &&& at + pattern.len() <= text.len()
    &&& forall|j: int| 0 <= j < pattern.len() ==> text[at + j] == #[trigger] pattern[j]
}

/// Whether two characters form one of the comment prefixes `//`, `--`, `*/`, `/*`, `**`.
pub open spec fn is_long_prefix(first: char, second: char) -> bool {
    ||| first == '/' && second == '/'
    ||| first == '-' && second == '-'
    ||| first == '*' && second == '/'
    ||| first == '/' && second == '*'
    ||| first == '*' && second == '*'
}

/// Whether a character is one of the comment prefixes `*`, `#`, `%`.
pub open spec fn is_short_prefix(c: char) -> bool {
    c == '*' || c == '#' || c == '%'
}

/// The length of the comment prefix at position `at`, or 0 where there is none.
/// Of two prefixes that both stand there, the longer one counts.
pub open spec fn prefix_len(text: Seq<char>, at: int) -> int {
    if 0 <= at && at + 2 <= text.len() && is_long_prefix(text[at], text[at + 1]) {
        2
    } else if 0 <= at < text.len() && is_short_prefix(text[at]) {
        1
    } else {
        0
    }
}

/// The first position from `at` on that holds neither a space nor a tab.
pub open spec fn after_spaces(text: Seq<char>, at: int) -> int
    decreases text.len() - at,
{
    if 0 <= at < text.len() && is_space(text[at]) {
        after_spaces(text, at + 1)
    } else {
        at
    }
}

/// The position of the first `\n` from `at` on, or the length of the text.
pub open spec fn line_end(text: Seq<char>, at: int) -> int {
    position_of(text, '\n', at)
}

/// Where a delimiter line starts at `at`, the position after its newline.
///
/// A delimiter line needs its newline: the keyword on an unterminated last
/// line delimits nothing.
pub open spec fn delimiter_end(text: Seq<char>, at: int) -> Option<int> {
    let prefix = prefix_len(text, at);
    let word = after_spaces(text, at + prefix);
    let tail = after_spaces(text, word + keyword().len());
    if prefix > 0 && starts_with_at(text, word, keyword()) && tail < text.len() && text[tail]
        == '\n' {
        Some(tail + 1)
    } else {
        None
    }
}

/// The start of the first delimiter line among the lines from `at` on,
/// `at` being the start of a line.
pub open spec fn first_delimiter(text: Seq<char>, at: int) -> Option<int>
    decreases text.len() - at,
{
    if delimiter_end(text, at) is Some {
        Some(at)
    } else if 0 <= at <= line_end(text, at) < text.len() {
        first_delimiter(text, line_end(text, at) + 1)
    } else {
        None
    }
}

/// Whether a line of a block starts at `at`: a comment prefix, then text
/// that does not begin with the keyword, then a newline.
pub open spec fn is_block_line(text: Seq<char>, at: int) -> bool {
    let prefix = prefix_len(text, at);
    &&& prefix > 0
    &&& !starts_with_at(text, after_spaces(text, at + prefix), keyword())
    &&& at + prefix <= line_end(text, at + prefix) < text.len()
}

/// The position after the run of block lines that starts at `at`.
pub open spec fn block_lines_end(text: Seq<char>, at: int) -> int
    decreases text.len() - at,
{
    if is_block_line(text, at) {
        block_lines_end(text, line_end(text, at + prefix_len(text, at)) + 1)
    } else {
        at
    }
}

/// The block lines that start at `at`, each without its comment prefix and newline.
pub open spec fn block_lines(text: Seq<char>, at: int) -> Seq<Seq<char>>
    decreases text.len() - at,
{
    if is_block_line(text, at) {
        let start = at + prefix_len(text, at);
        let end = line_end(text, start);
        seq![text.subrange(start, end)] + block_lines(text, end + 1)
    } else {
        Seq::empty()
    }
}

// ---------------------------------------------------------------------------
// De-indentation
// ---------------------------------------------------------------------------

/// The number of whitespace characters a line starts with.
pub open spec fn indentation(line: Seq<char>) -> nat {
    whitespace_run(line, 0)
}

/// A line of nothing but whitespace.
pub open spec fn is_blank(line: Seq<char>) -> bool {
    indentation(line) == line.len()
}

/// The smallest indentation among the lines that are not blank; `None` where all are blank.
pub open spec fn min_indentation(lines: Seq<Seq<char>>) -> Option<nat>
    decreases lines.len(),
{
    if lines.len() == 0 {
        None
    } else {
        let before = min_indentation(lines.drop_last());
        let line = lines.last();
        if is_blank(line) {
            before
        } else {
            match before {
                Some(least) if least <= indentation(line) => Some(least),
                _ => Some(indentation(line)),
            }
        }
    }
}

/// The indentation that every line that is not blank shares.
pub open spec fn common_indentation(lines: Seq<Seq<char>>) -> nat {
    match min_indentation(lines) {
        Some(least) => least,
        None => 0,
    }
}

/// A line without its first `width` characters; a blank line as it is.
pub open spec fn dedent_line(line: Seq<char>, width: nat) -> Seq<char> {
    if is_blank(line) {
        line
    } else {
        line.skip(width as int)
    }
}

/// The lines without their common indentation.
pub open spec fn dedent(lines: Seq<Seq<char>>) -> Seq<Seq<char>> {
    lines.map_values(|line: Seq<char>| dedent_line(line, common_indentation(lines)))
}

/// The lines, with a newline between each two.
pub open spec fn join_lines(lines: Seq<Seq<char>>) -> Seq<char>
    decreases lines.len(),
{
    if lines.len() == 0 {
        Seq::empty()
    } else if lines.len() == 1 {
        lines[0]
    } else {
        join_lines(lines.drop_last()) + seq!['\n'] + lines.last()
    }
}

/// The text of a configuration block, given its lines without their comment prefixes.
pub open spec fn block_text(lines: Seq<Seq<char>>) -> Seq<char> {
    join_lines(dedent(lines))
}

// ---------------------------------------------------------------------------
// The whole file
// ---------------------------------------------------------------------------

/// `Some(text)`, or `None` for an empty text.
pub open spec fn non_empty(text: Seq<char>) -> Option<Seq<char>> {
    if text.len() == 0 {
        None
    } else {
        Some(text)
    }
}

/// What a file parses to.
///
/// Without a delimiter line the whole text is content. With one, the block it
/// opens must be there in full: one or more block lines and a closing delimiter
/// line. The content before the block loses the newline that ends it.
pub open spec fn parse_file(text: Seq<char>) -> Result<ParsedFileView, ParseError> {
    match first_delimiter(text, 0) {
        None => Ok(
            ParsedFileView {
                pre_config_block: Some(text),
                config_block: None,
                post_config_block: None,
            },
        ),
        Some(opening) => {
            let body = delimiter_end(text, opening).unwrap();
            let closing = block_lines_end(text, body);
            match delimiter_end(text, closing) {
                Some(rest) if closing > body => Ok(
                    ParsedFileView {
                        pre_config_block: if opening == 0 {
                            None
                        } else {
                            Some(text.subrange(0, opening - 1))
                        },
                        config_block: Some(block_text(block_lines(text, body))),
                        post_config_block: non_empty(text.subrange(rest, text.len() as int)),
                    },
                ),
                _ => Err(ParseError { offset: closing as usize }),
            }
        },
    }
}

/// The content of a file without its configuration block.
pub open spec fn content_of(parsed: ParsedFileView) -> Seq<char> {
    (match parsed.pre_config_block {
        Some(text) => text,
        None => Seq::empty(),
    }) + (match parsed.post_config_block {
        Some(text) => text,
        None => Seq::empty(),
    })
}


// ---------------------------------------------------------------------------
// Facts about the grammar
// ---------------------------------------------------------------------------

/// A line ends at or after the position it is asked from, at a newline or at the end of the text.
pub proof fn lemma_line_end_bounds(text: Seq<char>, at: int)
    requires
        0 <= at <= text.len(),
    ensures
        at <= line_end(text, at) <= text.len(),
        line_end(text, at) < text.len() ==> text[line_end(text, at)] == '\n',
{
    lemma_position_of(text, '\n', at);
}

/// Skipping spaces stays inside the text.
pub proof fn lemma_after_spaces_bounds(text: Seq<char>, at: int)
    requires
        0 <= at <= text.len(),
    ensures
        at <= after_spaces(text, at) <= text.len(),
    decreases text.len() - at,
{
    if at < text.len() && is_space(text[at]) {
        lemma_after_spaces_bounds(text, at + 1);
    }
}

/// No line that is not blank is indented by less than the smallest indentation.
pub proof fn lemma_min_indentation_is_lower_bound(lines: Seq<Seq<char>>, index: int)
    requires
        0 <= index < lines.len(),
        !is_blank(lines[index]),
    ensures
        min_indentation(lines) is Some,
        min_indentation(lines).unwrap() <= indentation(lines[index]),
        common_indentation(lines) <= lines[index].len(),
    decreases lines.len(),
{
    lemma_whitespace_run_bounds(lines[index], 0);
    if index < lines.len() - 1 {
        lemma_min_indentation_is_lower_bound(lines.drop_last(), index);
    }
}

/// The first delimiter line, where there is one, is a delimiter line at or after the start,
/// and the start of a line.
pub proof fn lemma_first_delimiter(text: Seq<char>, at: int)
    requires
        0 <= at <= text.len(),
    ensures
        match first_delimiter(text, at) {
            Some(opening) => at <= opening < text.len() && delimiter_end(text, opening) is Some
                && (opening == at || text[opening - 1] == '\n'),
            None => delimiter_end(text, at) is None,
        },
    decreases text.len() - at,
{
    lemma_line_end_bounds(text, at);
    if delimiter_end(text, at) is Some {
        lemma_after_spaces_bounds(text, at + prefix_len(text, at));
    } else if line_end(text, at) < text.len() {
        lemma_first_delimiter(text, line_end(text, at) + 1);
    }
}

// ---------------------------------------------------------------------------
// The parser
// ---------------------------------------------------------------------------

/// The length of the comment prefix at `at`, 0 where there is none.
fn comment_prefix(text: &Vec<char>, at: usize) -> (len: usize)
    requires
        at <= text.len(),
    ensures
        len == prefix_len(text@, at as int),
        at + len <= text.len(),
{
    if text.len() - at >= 2 {
        let first = text[at];
        let second = text[at + 1];
        if (first == '/' && second == '/') || (first == '-' && second == '-') || (first == '*'
            && second == '/') || (first == '/' && second == '*') || (first == '*' && second
            == '*') {
            return 2;
        }
    }
    if text.len() - at >= 1 {
        let first = text[at];
        if first == '*' || first == '#' || first == '%' {
            return 1;
        }
    }
    0
}

/// The first position from `at` on that holds neither a space nor a tab.
fn skip_spaces(text: &Vec<char>, at: usize) -> (end: usize)
    requires
        at <= text.len(),
    ensures
        end == after_spaces(text@, at as int),
        at <= end <= text.len(),
{
    let mut end = at;
    while end < text.len() && (text[end] == ' ' || text[end] == '\t')
        invariant
            at <= end <= text.len(),
            after_spaces(text@, end as int) == after_spaces(text@, at as int),
        decreases text.len() - end,
    {
        end += 1;
    }
    end
}

/// The position of the first newline from `at` on, or the length of the text.
fn find_line_end(text: &Vec<char>, at: usize) -> (end: usize)
    requires
        at <= text.len(),
    ensures
        end == line_end(text@, at as int),
        at <= end <= text.len(),
{
    find_char(text, '\n', at)
}

/// Whether the keyword stands at `at`.
fn at_keyword(text: &Vec<char>, at: usize) -> (found: bool)
    requires
        at <= text.len(),
    ensures
        found == starts_with_at(text@, at as int, keyword()),
{
    if text.len() - at < 11 {
        return false;
    }
    let found = text[at] == 'b' && text[at + 1] == 'o' && text[at + 2] == 'i' && text[at + 3] == 's'
        && text[at + 4] == '_' && text[at + 5] == 'c' && text[at + 6] == 'o' && text[at + 7] == 'n'
        && text[at + 8] == 'f' && text[at + 9] == 'i' && text[at + 10] == 'g';
    proof {
        let word = keyword();
        assert(word.len() == 11);
        if !found {
            assert(text@[at + 0] == text@[at as int]);
            assert(word[0] == 'b' && word[1] == 'o' && word[2] == 'i' && word[3] == 's' && word[4]
                == '_' && word[5] == 'c' && word[6] == 'o' && word[7] == 'n' && word[8] == 'f'
                && word[9] == 'i' && word[10] == 'g');
        }
    }
    found
}

/// Where a delimiter line starts at `at`, the position after its newline.
fn config_delimiter(text: &Vec<char>, at: usize) -> (end: Option<usize>)
    requires
        at <= text.len(),
    ensures
        match end {
            Some(end) => delimiter_end(text@, at as int) == Some(end as int) && at < end
                <= text.len(),
            None => delimiter_end(text@, at as int) is None,
        },
{
    let prefix = comment_prefix(text, at);
    if prefix == 0 {
        return None;
    }
    let word = skip_spaces(text, at + prefix);
    if !at_keyword(text, word) {
        return None;
    }
    let tail = skip_spaces(text, word + 11);
    if tail < text.len() && text[tail] == '\n' {
        Some(tail + 1)
    } else {
        None
    }
}

/// The end of the lines before the first delimiter line: the position of the
/// newline before that line, or the length of a text without one. `None` where
/// the text starts with a delimiter line.
fn pre_config_lines(text: &Vec<char>) -> (end: Option<usize>)
    ensures
        match first_delimiter(text@, 0) {
            None => end == Some(text.len()),
            Some(opening) => if opening == 0 {
                end is None
            } else {
                end == Some((opening - 1) as usize) && 0 < opening <= text.len()
            },
        },
{
    if config_delimiter(text, 0).is_some() {
        return None;
    }
    let mut at: usize = 0;
    loop
        invariant
            at <= text.len(),
            delimiter_end(text@, at as int) is None,
            first_delimiter(text@, at as int) == first_delimiter(text@, 0),
        decreases text.len() - at,
    {
        let end = find_line_end(text, at);
        if end >= text.len() {
            return Some(end);
        }
        if config_delimiter(text, end + 1).is_some() {
            proof {
                assert(first_delimiter(text@, end + 1) == Some(end + 1));
            }
            return Some(end);
        }
        at = end + 1;
    }
}

/// The lines of a block as ranges of the text.
pub open spec fn lines_of(text: Seq<char>, ranges: Seq<(usize, usize)>) -> Seq<Seq<char>> {
    ranges.map_values(|range: (usize, usize)| text.subrange(range.0 as int, range.1 as int))
}

/// Whether each range lies in a text of the given length.
pub open spec fn ranges_within(ranges: Seq<(usize, usize)>, len: int) -> bool {
    forall|i: int| 0 <= i < ranges.len() ==> (#[trigger] ranges[i]).0 <= ranges[i].1 <= len
}

/// The number of whitespace characters that the line `start..end` starts with.
fn line_indentation(text: &Vec<char>, start: usize, end: usize) -> (count: usize)
    requires
        start <= end <= text.len(),
    ensures
        count == indentation(text@.subrange(start as int, end as int)),
        count <= end - start,
{
    let ghost line = text@.subrange(start as int, end as int);
    let mut at = start;
    while at < end && is_whitespace_char(text[at])
        invariant
            start <= at <= end <= text.len(),
            line == text@.subrange(start as int, end as int),
            indentation(line) == (at - start) + whitespace_run(line, at - start),
        decreases end - at,
    {
        assert(line[at - start] == text@[at as int]);
        at += 1;
    }
    proof {
        if at < end {
            assert(line[at - start] == text@[at as int]);
        }
    }
    at - start
}

/// The smallest indentation among the lines that are not blank.
fn smallest_indentation(text: &Vec<char>, ranges: &Vec<(usize, usize)>) -> (least: Option<usize>)
    requires
        ranges_within(ranges@, text.len() as int),
    ensures
        match least {
            Some(least) => min_indentation(lines_of(text@, ranges@)) == Some(least as nat),
            None => min_indentation(lines_of(text@, ranges@)) is None,
        },
{
    let ghost lines = lines_of(text@, ranges@);
    let mut least: Option<usize> = None;
    let mut index: usize = 0;
    while index < ranges.len()
        invariant
            index <= ranges.len(),
            ranges_within(ranges@, text.len() as int),
            lines == lines_of(text@, ranges@),
            match least {
                Some(least) => min_indentation(lines.take(index as int)) == Some(least as nat),
                None => min_indentation(lines.take(index as int)) is None,
            },
        decreases ranges.len() - index,
    {
        let (start, end) = ranges[index];
        let width = line_indentation(text, start, end);
        proof {
            assert(lines.take(index + 1).drop_last() =~= lines.take(index as int));
            assert(lines.take(index + 1).last() == text@.subrange(start as int, end as int));
        }
        if width < end - start {
            least =
            match least {
                Some(before) if before <= width => Some(before),
                _ => Some(width),
            };
        }
        index += 1;
    }
    proof {
        assert(lines.take(index as int) =~= lines);
    }
    least
}

/// The text of the block whose lines are the given ranges of the input.
fn block_from_lines<'s>(input: &'s str, text: &Vec<char>, ranges: &Vec<(usize, usize)>) -> (block:
    String)
    requires
        input@ == text@,
        ranges_within(ranges@, text.len() as int),
    ensures
        block@ == block_text(lines_of(text@, ranges@)),
{
    let ghost lines = lines_of(text@, ranges@);
    let width = match smallest_indentation(text, ranges) {
        Some(least) => least,
        None => 0,
    };
    let mut block = String::new();
    let mut index: usize = 0;
    while index < ranges.len()
        invariant
            index <= ranges.len(),
            input@ == text@,
            ranges_within(ranges@, text.len() as int),
            lines == lines_of(text@, ranges@),
            width == common_indentation(lines),
            block@ == join_lines(dedent(lines).take(index as int)),
        decreases ranges.len() - index,
    {
        let (start, end) = ranges[index];
        let indent = line_indentation(text, start, end);
        let ghost line = lines[index as int];
        let ghost done = dedent(lines).take(index as int);
        let ghost next = dedent(lines).take(index + 1);
        proof {
            assert(line == text@.subrange(start as int, end as int));
            assert(next.drop_last() =~= done);
            assert(next.last() == dedent_line(line, width as nat));
        }
        if index > 0 {
            proof {
                reveal_strlit("\n");
                assert("\n"@ =~= seq!['\n']);
            }
            block.append("\n");
        }
        let piece = if indent == end - start {
            input.substring_char(start, end)
        } else {
            proof {
                lemma_min_indentation_is_lower_bound(lines, index as int);
                assert(line.skip(width as int) =~= text@.subrange(start + width, end as int));
            }
            input.substring_char(start + width, end)
        };
        block.append(piece);
        proof {
            assert(piece@ == next.last());
            if index == 0 {
                assert(block@ =~= next[0]);
            }
        }
        index += 1;
    }
    proof {
        assert(dedent(lines).take(index as int) =~= dedent(lines));
    }
    block
}

/// The block line that starts at `at`, as the range of its text without
/// the comment prefix and the newline.
fn block_line(text: &Vec<char>, at: usize) -> (line: Option<(usize, usize)>)
    requires
        at <= text.len(),
    ensures
        match line {
            Some(range) => is_block_line(text@, at as int) && range.0 == at + prefix_len(
                text@,
                at as int,
            ) && range.1 == line_end(text@, range.0 as int) && at < range.0 <= range.1
                < text.len(),
            None => !is_block_line(text@, at as int),
        },
{
    let prefix = comment_prefix(text, at);
    if prefix == 0 {
        return None;
    }
    let start = at + prefix;
    let word = skip_spaces(text, start);
    if at_keyword(text, word) {
        return None;
    }
    let end = find_line_end(text, start);
    if end >= text.len() {
        return None;
    }
    Some((start, end))
}

/// The block that starts at `at`, with the position after it; `None` where no
/// delimiter line starts there.
///
/// Once the opening delimiter line is read the block must be there in full:
/// what follows the last commented line has to be the closing delimiter line.
fn config_block<'s>(input: &'s str, text: &Vec<char>, at: usize) -> (result: Result<
    Option<(String, usize)>,
    ParseError,
>)
    requires
        input@ == text@,
        at <= text.len(),
    ensures
        match delimiter_end(text@, at as int) {
            None => result == Ok::<Option<(String, usize)>, ParseError>(None),
            Some(body) => {
                let closing = block_lines_end(text@, body);
                match delimiter_end(text@, closing) {
                    Some(rest) if closing > body => result matches Ok(Some(found)) && found.0@
                        == block_text(block_lines(text@, body)) && found.1 == rest && rest
                        <= text.len(),
                    _ => result == Err::<Option<(String, usize)>, ParseError>(
                        ParseError { offset: closing as usize },
                    ),
                }
            },
        },
{
    let body = match config_delimiter(text, at) {
        Some(body) => body,
        None => {
            return Ok(None);
        },
    };
    let mut ranges: Vec<(usize, usize)> = Vec::new();
    let mut next = body;
    let mut line = block_line(text, next);
    while line.is_some()
        invariant
            body <= next <= text.len(),
            (next > body) == (ranges.len() > 0),
            ranges_within(ranges@, text.len() as int),
            block_lines_end(text@, next as int) == block_lines_end(text@, body as int),
            block_lines(text@, body as int) == lines_of(text@, ranges@) + block_lines(
                text@,
                next as int,
            ),
            match line {
                Some(range) => is_block_line(text@, next as int) && range.0 == next + prefix_len(
                    text@,
                    next as int,
                ) && range.1 == line_end(text@, range.0 as int) && next < range.0 <= range.1
                    < text.len(),
                None => !is_block_line(text@, next as int),
            },
        decreases text.len() - next,
    {
        let (start, end) = line.unwrap();
        proof {
            assert(lines_of(text@, ranges@.push((start, end))) =~= lines_of(text@, ranges@)
                + seq![text@.subrange(start as int, end as int)]);
            assert(lines_of(text@, ranges@) + (seq![text@.subrange(start as int, end as int)]
                + block_lines(text@, end + 1)) =~= lines_of(text@, ranges@.push((start, end)))
                + block_lines(text@, end + 1));
        }
        ranges.push((start, end));
        next = end + 1;
        line = block_line(text, next);
    }
    proof {
        assert(lines_of(text@, ranges@) + Seq::<Seq<char>>::empty() =~= lines_of(text@, ranges@));
    }
    if ranges.len() == 0 {
        return Err(ParseError { offset: next });
    }
    match config_delimiter(text, next) {
        Some(rest) => Ok(Some((block_from_lines(input, text, &ranges), rest))),
        None => Err(ParseError { offset: next }),
    }
}

/// Splits the text of a file at its configuration block.
///
/// A text without a delimiter line is content as a whole. A text with one
/// holds a block, and a block that is not closed is an error: it is never
/// taken for content.
pub fn config_file<'s>(input: &'s str) -> (result: Result<ParsedFile<'s>, ParseError>)
    ensures
        match parse_file(input@) {
            Ok(parsed) => result matches Ok(found) && found@ == parsed,
            Err(error) => result matches Err(found) && found == error,
        },
{
    let text = characters(input);
    let len = text.len();
    let (pre, at) = match pre_config_lines(&text) {
        None => (None, 0),
        Some(end) => if end < len {
            (Some(input.substring_char(0, end)), end + 1)
        } else {
            (Some(input), end)
        },
    };
    proof {
        lemma_first_delimiter(text@, 0);
        if first_delimiter(text@, 0) is None {
            assert(delimiter_end(text@, len as int) is None);
        }
    }
    match config_block(input, &text, at) {
        Err(error) => Err(error),
        Ok(None) => Ok(ParsedFile { pre_config_block: pre, config_block: None, post_config_block: None }),
        Ok(Some((block, rest))) => {
            let post = if rest < len {
                Some(input.substring_char(rest, len))
            } else {
                None
            };
            Ok(ParsedFile { pre_config_block: pre, config_block: Some(block), post_config_block: post })
        },
    }
}

impl<'s> ParsedFile<'s> {
    /// The content of the file: what stands before the block and what stands after it.
    pub fn content(&self) -> (content: String)
        ensures
            content@ == content_of(self@),
    {
        let mut content = match self.pre_config_block {
            Some(text) => String::from_str(text),
            None => String::new(),
        };
        match self.post_config_block {
            Some(text) => {
                content.append(text);
            },
            None => {
                assert(content@ + Seq::<char>::empty() =~= content@);
            },
        }
        content
    }
}


// ---------------------------------------------------------------------------
// Laws
// ---------------------------------------------------------------------------

/// Whether a line starts at `at`: at the start of the text or after a newline.
pub open spec fn is_line_start(text: Seq<char>, at: int) -> bool {
    0 <= at <= text.len() && (at == 0 || text[at - 1] == '\n')
}

/// Whether some line of the text is a delimiter line.
pub open spec fn has_delimiter_line(text: Seq<char>) -> bool {
    exists|at: int| is_line_start(text, at) && #[trigger] delimiter_end(text, at) is Some
}

/// No delimiter line stands between the start of a search and what it finds.
proof fn lemma_first_delimiter_is_first(text: Seq<char>, from: int, at: int)
    requires
        is_line_start(text, from),
        is_line_start(text, at),
        from <= at,
        delimiter_end(text, at) is Some,
    ensures
        first_delimiter(text, from) is Some,
        first_delimiter(text, from).unwrap() <= at,
    decreases text.len() - from,
{
    lemma_line_end_bounds(text, from);
    if delimiter_end(text, from) is None {
        let end = line_end(text, from);
        lemma_after_spaces_bounds(text, at + prefix_len(text, at));
        assert(from < at);
        // The line that starts at `from` ends before `at`: `at` follows a newline.
        lemma_line_end_is_first_newline(text, from, at - 1);
        lemma_first_delimiter_is_first(text, end + 1, at);
    }
}

/// The end of a line is the first newline after its start.
proof fn lemma_line_end_is_first_newline(text: Seq<char>, from: int, newline: int)
    requires
        0 <= from <= newline < text.len(),
        text[newline] == '\n',
    ensures
        line_end(text, from) <= newline,
{
    lemma_position_of(text, '\n', from);
}

/// A text in which no line is a delimiter line is content as a whole: it
/// parses to itself as the content before the block, and has no block.
pub proof fn law_text_without_delimiter_is_content(text: Seq<char>)
    requires
        !has_delimiter_line(text),
    ensures
        parse_file(text) == Ok::<ParsedFileView, ParseError>(
            ParsedFileView {
                pre_config_block: Some(text),
                config_block: None,
                post_config_block: None,
            },
        ),
        content_of(parse_file(text).unwrap()) == text,
{
    lemma_first_delimiter(text, 0);
    if first_delimiter(text, 0) is Some {
        let opening = first_delimiter(text, 0).unwrap();
        assert(is_line_start(text, opening) && delimiter_end(text, opening) is Some);
    }
    assert(text + Seq::<char>::empty() =~= text);
}

/// A text in which some line is a delimiter line never parses to content
/// alone: it holds a block, or it is an error.
pub proof fn law_delimiter_opens_block(text: Seq<char>)
    requires
        has_delimiter_line(text),
    ensures
        match parse_file(text) {
            Ok(parsed) => parsed.config_block is Some,
            Err(_) => true,
        },
{
    let at = choose|at: int| is_line_start(text, at) && #[trigger] delimiter_end(text, at) is Some;
    lemma_first_delimiter_is_first(text, 0, at);
}

/// Once a delimiter line has opened a block, the first line after it that is
/// not a commented line must be the closing delimiter line, and one
/// commented line at least must stand between the two. Otherwise the text is
/// an error at that line: what follows is never taken for content.
pub proof fn law_block_is_committed(text: Seq<char>, opening: int)
    requires
        first_delimiter(text, 0) == Some(opening),
    ensures
        ({
            let body = delimiter_end(text, opening).unwrap();
            let closing = block_lines_end(text, body);
            if closing > body && delimiter_end(text, closing) is Some {
                parse_file(text) is Ok
            } else {
                parse_file(text) == Err::<ParsedFileView, ParseError>(
                    ParseError { offset: closing as usize },
                )
            }
        }),
{
}

/// `width` spaces.
pub open spec fn spaces(width: nat) -> Seq<char> {
    Seq::new(width, |i: int| ' ')
}

/// A line moved to the right by `width` spaces; a blank line as it is.
pub open spec fn indent_line(line: Seq<char>, width: nat) -> Seq<char> {
    if is_blank(line) {
        line
    } else {
        spaces(width) + line
    }
}

/// The lines of a block, each but the blank ones moved to the right by `width` spaces.
pub open spec fn indent(lines: Seq<Seq<char>>, width: nat) -> Seq<Seq<char>> {
    lines.map_values(|line: Seq<char>| indent_line(line, width))
}

/// Spaces before a line add to its run of whitespace.
proof fn lemma_whitespace_run_after_spaces(line: Seq<char>, width: nat, at: int)
    requires
        0 <= at <= width,
    ensures
        whitespace_run(spaces(width) + line, at) == (width - at) + indentation(line),
    decreases width - at,
{
    let moved = spaces(width) + line;
    if at < width {
        assert(moved[at] == ' ');
        lemma_whitespace_run_after_spaces(line, width, at + 1);
    } else {
        lemma_whitespace_run_shift(line, width, 0);
    }
}

/// The run of whitespace in a line is the same when spaces stand before the line.
proof fn lemma_whitespace_run_shift(line: Seq<char>, width: nat, at: int)
    requires
        0 <= at <= line.len(),
    ensures
        whitespace_run(spaces(width) + line, width + at) == whitespace_run(line, at),
    decreases line.len() - at,
{
    let moved = spaces(width) + line;
    if at < line.len() {
        assert(moved[width + at] == line[at]);
        if is_whitespace(line[at]) {
            lemma_whitespace_run_shift(line, width, at + 1);
        }
    }
}

/// Moving a line to the right adds to its indentation and keeps it from being blank.
proof fn lemma_indent_line(line: Seq<char>, width: nat)
    requires
        !is_blank(line),
    ensures
        indentation(indent_line(line, width)) == width + indentation(line),
        !is_blank(indent_line(line, width)),
{
    lemma_whitespace_run_after_spaces(line, width, 0);
}

/// Moving the lines to the right adds to their smallest indentation.
proof fn lemma_min_indentation_of_indent(lines: Seq<Seq<char>>, width: nat)
    ensures
        match min_indentation(lines) {
            Some(least) => min_indentation(indent(lines, width)) == Some(least + width),
            None => min_indentation(indent(lines, width)) is None,
        },
    decreases lines.len(),
{
    if lines.len() > 0 {
        lemma_min_indentation_of_indent(lines.drop_last(), width);
        assert(indent(lines, width).drop_last() =~= indent(lines.drop_last(), width));
        assert(indent(lines, width).last() == indent_line(lines.last(), width));
        if !is_blank(lines.last()) {
            lemma_indent_line(lines.last(), width);
        }
    }
}

/// The text of a block does not depend on how far the block as a whole is
/// indented: moving every line that is not blank to the right by the same
/// number of spaces gives the same text.
pub proof fn law_block_text_ignores_indentation(lines: Seq<Seq<char>>, width: nat)
    ensures
        dedent(indent(lines, width)) == dedent(lines),
        block_text(indent(lines, width)) == block_text(lines),
{
    let moved = indent(lines, width);
    lemma_min_indentation_of_indent(lines, width);
    assert forall|i: int| 0 <= i < lines.len() implies dedent(moved)[i] == dedent(lines)[i] by {
        let line = lines[i];
        assert(moved[i] == indent_line(line, width));
        if !is_blank(line) {
            lemma_indent_line(line, width);
            lemma_min_indentation_is_lower_bound(lines, i);
            let least = common_indentation(lines);
            assert(common_indentation(moved) == least + width);
            assert((spaces(width) + line).skip((least + width) as int) =~= line.skip(least as int));
        }
    }
    assert(dedent(moved) =~= dedent(lines));
}

} // verus!
