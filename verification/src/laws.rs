//! Laws that hold between the library's functions, stated over what their
//! contracts promise.

use crate::buf::CStrBuf;
use crate::bytes::{
    c_len, has_nul, lemma_c_len_bounds, lemma_c_len_push_nul, lemma_c_len_terminated, strlen, NUL,
};
use crate::string::CString;
use crate::to_c_str::ToCStr;
use vstd::prelude::*;

verus! {

/// Round trip: a source without a terminator among its bytes, converted to a
/// string, gives its own bytes back: alone from `as_bytes_no_nul`, and with
/// one terminator after them from `as_bytes`.
pub proof fn law_round_trip<S: ToCStr + ?Sized>(
    src: &S,
    s: CString,
    no_nul: &[u8],
    with_nul: &[u8],
)
    requires
        !has_nul(src.c_bytes()),
        call_ensures(S::to_c_str, (src,), s),
        call_ensures(CString::as_bytes_no_nul, (&s,), no_nul),
        call_ensures(CString::as_bytes, (&s,), with_nul),
    ensures
        no_nul@ == src.c_bytes(),
        with_nul@ == src.c_bytes().push(NUL),
{
}

/// A source that holds a terminator among its bytes, converted without the
/// check, gives a string of the source's full length, and a scan of that
/// string's bytes stops early: at the source's first terminator.
pub proof fn law_unchecked_scan_stops_early<S: ToCStr + ?Sized>(
    src: &S,
    s: CString,
    with_nul: &[u8],
    n: usize,
)
    requires
        has_nul(src.c_bytes()),
        call_ensures(S::to_c_str_unchecked, (src,), s),
        call_ensures(CString::as_bytes, (&s,), with_nul),
        call_ensures(strlen, (with_nul,), n),
    ensures
        s.spec_len() == src.c_bytes().len(),
        n == c_len(src.c_bytes()),
        n < s.spec_len(),
        src.c_bytes()[n as int] == NUL,
{
    lemma_c_len_push_nul(src.c_bytes());
    lemma_c_len_terminated(src.c_bytes());
}

/// Length invariant: in every string the byte right after the cached length
/// is the terminator, in the string's memory and in what `as_bytes` hands
/// out, which is one byte longer than the length.
pub proof fn law_length_invariant(s: CString, with_nul: &[u8])
    requires
        s.wf(),
        call_ensures(CString::as_bytes, (&s,), with_nul),
    ensures
        s.mem()[s.spec_len() as int] == NUL,
        with_nul@.len() == s.spec_len() + 1,
        with_nul@[s.spec_len() as int] == NUL,
{
}

/// Promotion changes no byte: the string that a buffer is promoted to has
/// the buffer's address, memory and release, its bytes are the buffer's,
/// and its length is their number.
pub proof fn law_promotion_keeps_bytes(buf: CStrBuf, s: CString, no_nul: &[u8])
    requires
        buf.wf(),
        call_ensures(CStrBuf::into_c_str, (buf,), s),
        call_ensures(CString::as_bytes_no_nul, (&s,), no_nul),
    ensures
        s.addr() == buf.addr(),
        s.mem() == buf.mem(),
        s.dtor() == buf.dtor(),
        no_nul@ == buf@,
        s.spec_len() == buf@.len(),
{
    lemma_c_len_bounds(buf.mem());
}

} // verus!
