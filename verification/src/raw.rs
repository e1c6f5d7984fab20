//! What the library takes on trust from the standard library: where a slice
//! is stored, and whether bytes are UTF-8 text.

use vstd::prelude::*;
use vstd::string::StringSliceAdditionalSpecFns;
use vstd::utf8::valid_utf8;

verus! {

/// The error of `core::str::from_utf8`; nothing is read from it.
#[verifier::external_type_specification]
#[verifier::external_body]
pub struct ExUtf8Error(core::str::Utf8Error);

/// `core::str::from_utf8` accepts exactly the byte sequences that are valid
/// UTF-8, and the text it returns is made of the very bytes it was given.
pub assume_specification<'a>[ core::str::from_utf8 ](v: &'a [u8]) -> (r: Result<
    &'a str,
    core::str::Utf8Error,
>)
    ensures
        r is Ok <==> valid_utf8(v@),
        r matches Ok(s) ==> s.spec_bytes() == v@,
;

/// The address at which `run` is stored, from `<[u8]>::as_ptr`. The pointer
/// of a slice is never null, and the bytes of a slice lie in one allocation,
/// which ends inside the address space. Nothing else is claimed: the address
/// is whatever the allocator chose.
#[verifier::external_body]
pub(crate) fn address_of(run: &[u8]) -> (addr: usize)
    ensures
        addr != 0,
        addr + run@.len() <= usize::MAX,
{
    run.as_ptr() as usize
}

} // verus!
