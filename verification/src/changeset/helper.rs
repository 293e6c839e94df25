//! Comparison of unix permission modes.

use vstd::prelude::*;

verus! {

/// The bits of a mode that hold the special bits and the permissions: the low twelve.
pub const PERMISSION_MASK: u32 = 0o7777;

/// The mode without its file type bits.
pub open spec fn permission_bits(mode: u32) -> u32 {
    mode & PERMISSION_MASK
}

/// Whether two unix modes grant the same permissions, whatever file type they carry.
pub fn equal_permissions(one: u32, two: u32) -> (equal: bool)
    ensures
        equal == (permission_bits(one) == permission_bits(two)),
{
    remove_filetype(one) == remove_filetype(two)
}

/// Drops the file type bits of a mode as the operating system reports it.
///
/// Such a mode holds four bits of file type above three special bits and nine
/// permission bits; only the low twelve describe what may be done with the path.
pub fn remove_filetype(number: u32) -> (stripped: u32)
    ensures
        stripped == permission_bits(number),
        stripped <= PERMISSION_MASK,
{
    assert(number & 0o7777 <= 0o7777) by (bit_vector);
    number & PERMISSION_MASK
}

/// Two modes that differ in nothing but their file type bits, the bits
/// above the low twelve, grant the same permissions.
pub proof fn law_file_type_is_ignored(one: u32, two: u32)
    requires
        one & 0o7777 == two & 0o7777,
    ensures
        permission_bits(one) == permission_bits(two),
        forall|file_type: u32|
            file_type & 0o7777 == 0 ==> permission_bits(#[trigger] (one | file_type))
                == permission_bits(two),
{
    assert forall|file_type: u32| file_type & 0o7777 == 0 implies permission_bits(
        #[trigger] (one | file_type),
    ) == permission_bits(two) by {
        assert(file_type & 0o7777 == 0 ==> (one | file_type) & 0o7777 == one & 0o7777)
            by (bit_vector);
    }
}

} // verus!
