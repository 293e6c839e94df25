//! Paths of the target system, as texts with `/` between their components.

use vstd::prelude::*;

verus! {

/// Whether a path names its place from the root: it starts with `/`.
pub open spec fn is_absolute(path: Seq<char>) -> bool {
    path.len() > 0 && path[0] == '/'
}

/// `tail` seen from `base`: an absolute `tail` stands for itself, any other
/// is appended to `base`, after a `/` where `base` does not end in one.
pub open spec fn joined(base: Seq<char>, tail: Seq<char>) -> Seq<char> {
    if is_absolute(tail) {
        tail
    } else if base.len() == 0 || base.last() == '/' {
        base + tail
    } else {
        base + seq!['/'] + tail
    }
}

/// The path that `std::path::PathBuf::set_file_name` leaves when it is
/// called with `name` on `path`.
pub uninterp spec fn file_name_replaced(path: Seq<char>, name: Seq<char>) -> Seq<char>;

/// Whether a path names its place from the root.
pub fn is_absolute_path(path: &str) -> (absolute: bool)
    ensures
        absolute == is_absolute(path@),
{
    path.unicode_len() > 0 && path.get_char(0) == '/'
}

/// `tail` seen from `base`.
pub fn join(base: &str, tail: &str) -> (path: String)
    ensures
        path@ == joined(base@, tail@),
{
    if is_absolute_path(tail) {
        return String::from_str(tail);
    }
    let len = base.unicode_len();
    let mut path = String::from_str(base);
    if len > 0 && base.get_char(len - 1) != '/' {
        proof {
            reveal_strlit("/");
            assert("/"@ =~= seq!['/']);
        }
        path.append("/");
    }
    path.append(tail);
    path
}

/// Replaces the last component of a path.
///
/// Calls `std::path::PathBuf::set_file_name`, which puts `name` in the place
/// of the file name of `path`, or appends it where `path` has no file name.
/// The contract only names the outcome.
#[verifier::external_body]
pub(crate) fn set_file_name(path: &str, name: &str) -> (renamed: String)
    ensures
        renamed@ == file_name_replaced(path@, name@),
{
    let mut renamed = std::path::PathBuf::from(path);
    renamed.set_file_name(name);
    renamed.to_string_lossy().into_owned()
}

} // verus!
