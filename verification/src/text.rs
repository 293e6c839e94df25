//! Texts as sequences of characters: views of optional and listed strings,
//! whitespace, and the few string operations the rest of the library needs.

use vstd::prelude::*;

verus! {

/// The characters of an optional string.
pub open spec fn text_of(text: Option<String>) -> Option<Seq<char>> {
    match text {
        Some(text) => Some(text@),
        None => None,
    }
}

/// The characters of each string of a list.
pub open spec fn texts(list: Seq<String>) -> Seq<Seq<char>> {
    list.map_values(|text: String| text@)
}

/// Whether a character has the Unicode property `White_Space`.
pub open spec fn is_whitespace(c: char) -> bool {
    let n = c as u32;
    ||| 0x09 <= n <= 0x0d
    ||| n == 0x20
    ||| n == 0x85
    ||| n == 0xa0
    ||| n == 0x1680
    ||| 0x2000 <= n <= 0x200a
    ||| n == 0x2028
    ||| n == 0x2029
    ||| n == 0x202f
    ||| n == 0x205f
    ||| n == 0x3000
}

/// The number of whitespace characters from `at` on, up to the first other character.
pub open spec fn whitespace_run(line: Seq<char>, at: int) -> nat
    decreases line.len() - at,
{
    if 0 <= at < line.len() && is_whitespace(line[at]) {
        1 + whitespace_run(line, at + 1)
    } else {
        0
    }
}

/// The number of whitespace characters before `end`, back to the last other character.
pub open spec fn whitespace_run_back(line: Seq<char>, end: int) -> nat
    decreases end,
{
    if 0 < end <= line.len() && is_whitespace(line[end - 1]) {
        1 + whitespace_run_back(line, end - 1)
    } else {
        0
    }
}

/// A text without the whitespace it starts and ends with.
pub open spec fn trim(text: Seq<char>) -> Seq<char> {
    let start = whitespace_run(text, 0) as int;
    let end = text.len() - whitespace_run_back(text, text.len() as int);
    if start < end {
        text.subrange(start, end)
    } else {
        Seq::empty()
    }
}

/// A run of whitespace is no longer than what is left of the line.
pub proof fn lemma_whitespace_run_bounds(line: Seq<char>, at: int)
    requires
        0 <= at <= line.len(),
    ensures
        whitespace_run(line, at) <= line.len() - at,
    decreases line.len() - at,
{
    if at < line.len() && is_whitespace(line[at]) {
        lemma_whitespace_run_bounds(line, at + 1);
    }
}

/// The characters of a text, one by one.
pub fn characters(input: &str) -> (text: Vec<char>)
    ensures
        text@ == input@,
{
    let mut text: Vec<char> = Vec::new();
    for c in it: input.chars()
        invariant
            it.seq() == input@,
            text@ == it.seq().take(it.index() as int),
    {
        text.push(c);
    }
    text
}

/// Whether a character has the Unicode property `White_Space`.
pub fn is_whitespace_char(c: char) -> (result: bool)
    ensures
        result == is_whitespace(c),
{
    let n: u32 = c as u32;
    (0x09 <= n && n <= 0x0d) || n == 0x20 || n == 0x85 || n == 0xa0 || n == 0x1680 || (0x2000 <= n
        && n <= 0x200a) || n == 0x2028 || n == 0x2029 || n == 0x202f || n == 0x205f || n == 0x3000
}

/// The range of a text that is left when the whitespace at both ends is cut off.
fn trimmed_range(text: &Vec<char>) -> (range: (usize, usize))
    ensures
        range.0 <= range.1 <= text.len(),
        trim(text@) == text@.subrange(range.0 as int, range.1 as int),
{
    let mut start: usize = 0;
    while start < text.len() && is_whitespace_char(text[start])
        invariant
            start <= text.len(),
            whitespace_run(text@, 0) == start + whitespace_run(text@, start as int),
        decreases text.len() - start,
    {
        start += 1;
    }
    let mut end: usize = text.len();
    while end > 0 && is_whitespace_char(text[end - 1])
        invariant
            end <= text.len(),
            whitespace_run_back(text@, text.len() as int) == (text.len() - end)
                + whitespace_run_back(text@, end as int),
        decreases end,
    {
        end -= 1;
    }
    if start < end {
        (start, end)
    } else {
        assert(text@.subrange(0, 0) =~= Seq::<char>::empty());
        (0, 0)
    }
}

/// Whether two texts are the same but for the whitespace at their ends.
pub fn equal_trimmed(one: &str, two: &str) -> (equal: bool)
    ensures
        equal == (trim(one@) == trim(two@)),
{
    let first = characters(one);
    let second = characters(two);
    let (from, to) = trimmed_range(&first);
    let (start, end) = trimmed_range(&second);
    let ghost left = first@.subrange(from as int, to as int);
    let ghost right = second@.subrange(start as int, end as int);
    if to - from != end - start {
        assert(left.len() != right.len());
        return false;
    }
    let mut index: usize = 0;
    while index < to - from
        invariant
            from <= to <= first.len(),
            start <= end <= second.len(),
            to - from == end - start,
            index <= to - from,
            left == first@.subrange(from as int, to as int),
            right == second@.subrange(start as int, end as int),
            trim(one@) == left,
            trim(two@) == right,
            forall|i: int| 0 <= i < index ==> left[i] == right[i],
        decreases to - from - index,
    {
        if first[from + index] != second[start + index] {
            assert(left[index as int] != right[index as int]);
            return false;
        }
        index += 1;
    }
    assert(left =~= right);
    true
}

/// A copy of an optional string.
pub fn clone_text(text: &Option<String>) -> (copy: Option<String>)
    ensures
        text_of(copy) == text_of(*text),
{
    match text {
        Some(text) => Some(text.clone()),
        None => None,
    }
}

/// A copy of a list of strings.
pub fn clone_texts(list: &Vec<String>) -> (copy: Vec<String>)
    ensures
        texts(copy@) == texts(list@),
{
    let mut copy: Vec<String> = Vec::new();
    let mut index: usize = 0;
    while index < list.len()
        invariant
            index <= list.len(),
            copy.len() == index,
            forall|i: int| 0 <= i < index ==> (#[trigger] copy@[i])@ == list@[i]@,
        decreases list.len() - index,
    {
        copy.push(list[index].clone());
        index += 1;
    }
    assert(texts(copy@) =~= texts(list@));
    copy
}

/// Whether a list of strings holds a string.
pub fn contains_text(list: &Vec<String>, text: &String) -> (found: bool)
    ensures
        found == texts(list@).contains(text@),
{
    let mut index: usize = 0;
    while index < list.len()
        invariant
            index <= list.len(),
            forall|i: int| 0 <= i < index ==> texts(list@)[i] != text@,
        decreases list.len() - index,
    {
        if list[index] == *text {
            assert(texts(list@)[index as int] == text@);
            return true;
        }
        index += 1;
    }
    false
}


/// The position of the first `c` from `at` on, or the length of the text.
pub open spec fn position_of(text: Seq<char>, c: char, at: int) -> int
    decreases text.len() - at,
{
    if 0 <= at < text.len() && text[at] != c {
        position_of(text, c, at + 1)
    } else {
        at
    }
}

/// The first `c` from `at` on stands at or after `at`, and nowhere before
/// the position that is found.
pub proof fn lemma_position_of(text: Seq<char>, c: char, at: int)
    requires
        0 <= at <= text.len(),
    ensures
        at <= position_of(text, c, at) <= text.len(),
        position_of(text, c, at) < text.len() ==> text[position_of(text, c, at)] == c,
        forall|i: int| at <= i < position_of(text, c, at) ==> text[i] != c,
    decreases text.len() - at,
{
    if at < text.len() && text[at] != c {
        lemma_position_of(text, c, at + 1);
    }
}

/// The position of the first `c` from `at` on, or the length of the text.
pub fn find_char(text: &Vec<char>, c: char, at: usize) -> (end: usize)
    requires
        at <= text.len(),
    ensures
        end == position_of(text@, c, at as int),
        at <= end <= text.len(),
{
    let mut end = at;
    while end < text.len() && text[end] != c
        invariant
            at <= end <= text.len(),
            position_of(text@, c, end as int) == position_of(text@, c, at as int),
        decreases text.len() - end,
    {
        end += 1;
    }
    end
}

/// A line without the carriage return that it ends with.
pub open spec fn without_carriage_return(line: Seq<char>) -> Seq<char> {
    if line.len() > 0 && line.last() == '\r' {
        line.drop_last()
    } else {
        line
    }
}

/// The lines of a text from `at` on.
///
/// A line ends with `\n` or with `\r\n`, neither of which belongs to it. The
/// last line need not end at all, and whatever it ends with then is its own.
pub open spec fn lines_from(text: Seq<char>, at: int) -> Seq<Seq<char>>
    decreases text.len() - at,
{
    if at < 0 || at >= text.len() {
        Seq::empty()
    } else {
        let end = position_of(text, '\n', at);
        if at <= end < text.len() {
            seq![without_carriage_return(text.subrange(at, end))] + lines_from(text, end + 1)
        } else {
            seq![text.subrange(at, text.len() as int)]
        }
    }
}

/// The lines of a text.
pub open spec fn lines_of(text: Seq<char>) -> Seq<Seq<char>> {
    lines_from(text, 0)
}

/// The lines of a text.
pub fn lines(input: &str) -> (found: Vec<String>)
    ensures
        texts(found@) == lines_of(input@),
{
    let text = characters(input);
    let mut found: Vec<String> = Vec::new();
    let mut at: usize = 0;
    proof {
        assert(texts(found@) =~= Seq::empty());
        assert(Seq::<Seq<char>>::empty() + lines_from(text@, 0) =~= lines_from(text@, 0));
    }
    while at < text.len()
        invariant
            at <= text.len(),
            text@ == input@,
            lines_of(text@) == texts(found@) + lines_from(text@, at as int),
        decreases text.len() - at,
    {
        let end = find_char(&text, '\n', at);
        let ghost before = found@;
        let ghost rest = lines_from(text@, at as int);
        if end < text.len() {
            let stop = if end > at && text[end - 1] == '\r' {
                end - 1
            } else {
                end
            };
            let line = input.substring_char(at, stop);
            proof {
                let whole = text@.subrange(at as int, end as int);
                if end > at {
                    assert(whole.last() == text@[end - 1]);
                }
                assert(line@ =~= without_carriage_return(whole));
            }
            found.push(String::from_str(line));
            proof {
                assert(texts(found@) =~= texts(before).push(line@));
                assert(texts(before) + (seq![line@] + lines_from(text@, end + 1)) =~= texts(
                    before,
                ).push(line@) + lines_from(text@, end + 1));
            }
            at = end + 1;
        } else {
            let line = input.substring_char(at, end);
            found.push(String::from_str(line));
            proof {
                assert(texts(found@) =~= texts(before).push(line@));
                assert(texts(before) + seq![line@] =~= texts(before).push(line@)
                    + Seq::<Seq<char>>::empty());
            }
            at = end;
        }
    }
    proof {
        assert(texts(found@) + Seq::<Seq<char>>::empty() =~= texts(found@));
    }
    found
}

} // verus!
