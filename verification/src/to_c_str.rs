//! Conversion to C strings: copying bytes into a fresh run with a
//! terminator after them, and lending such a run to a visitor for the time
//! of one call.

use crate::borrowed::BorrowedCString;
use crate::buf::{CStrBuf, Dtor};
use crate::bytes::{c_len, content, has_nul, lemma_c_len_bounds, lemma_c_len_push_nul, NUL};
use crate::raw::address_of;
use crate::string::CString;
use vstd::prelude::*;
use vstd::slice::slice_subrange;
use vstd::string::StringSliceAdditionalSpecFns;

verus! {

/// Sources of at most this many bytes are lent to a visitor from a buffer on
/// the stack; longer ones are copied to the heap first.
pub const BUF_LEN: usize = 128;

/// The size of the buffer on the stack: room for `BUF_LEN` bytes and the
/// terminator.
const BUF_SIZE: usize = 129;

/// Copies `v` into a fresh run with a terminator after it. The run's memory
/// is owed to the allocator.
pub fn buf_dup(v: &[u8]) -> (buf: CStrBuf)
    ensures
        buf.wf(),
        buf.mem() == v@.push(NUL),
        buf.dtor() == Some(Dtor::Free),
        buf@ == content(v@),
{
    let mut copy: Vec<u8> = Vec::new();
    copy.extend_from_slice(v);
    copy.push(NUL);
    proof {
        assert(copy@ =~= v@.push(NUL));
        lemma_c_len_push_nul(v@);
    }
    let ptr = address_of(copy.as_slice());
    CStrBuf::new_libc(ptr, copy)
}

/// Copies `v` into a fresh string of `v.len()` bytes, whatever `v` holds.
pub fn str_dup(v: &[u8]) -> (s: CString)
    ensures
        s.wf(),
        s@ == v@,
        s.mem() == v@.push(NUL),
        s.spec_len() == v@.len(),
        s.dtor() == Some(Dtor::Free),
        c_len(s.mem()) == c_len(v@),
{
    proof {
        lemma_c_len_push_nul(v@);
    }
    let s = CString::from_buf(buf_dup(v), v.len());
    assert(s@ =~= v@);
    s
}

/// Lends `v`, with a terminator after it, and its length to `f` for the
/// time of the call. A short `v` is copied to the stack, a long one to the
/// heap; `f` sees the same bytes either way. With `checked`, a `v` that
/// holds a terminator is left out.
pub fn with_c_str_len<T, F: FnOnce(&[u8], usize) -> T>(v: &[u8], checked: bool, f: F) -> (out: T)
    requires
        checked ==> !has_nul(v@),
        forall|run: &[u8]| run@ == v@.push(NUL) ==> f.requires((run, v@.len() as usize)),
    ensures
        exists|run: &[u8]| run@ == v@.push(NUL) && f.ensures((run, v@.len() as usize), out),
{
    let len = v.len();
    if len <= BUF_LEN {
        let mut buf = [0u8; BUF_SIZE];
        let mut i: usize = 0;
        while i < len
            invariant
                len == v@.len(),
                len <= BUF_LEN,
                i <= len,
                buf@.len() == BUF_SIZE,
                forall|j: int| 0 <= j < i ==> buf@[j] == v@[j],
            decreases len - i,
        {
            buf[i] = v[i];
            i = i + 1;
        }
        buf[len] = NUL;
        let run = slice_subrange(buf.as_slice(), 0, len + 1);
        assert(run@ =~= v@.push(NUL));
        return f(run, len);
    }
    let c_str = if checked {
        v.to_c_str()
    } else {
        v.to_c_str_unchecked()
    };
    f(c_str.as_bytes(), len)
}

/// Lends `v`, with a terminator after it, to `f` for the time of the call.
pub fn with_c_str<T, F: FnOnce(&[u8]) -> T>(v: &[u8], checked: bool, f: F) -> (out: T)
    requires
        checked ==> !has_nul(v@),
        forall|run: &[u8]| run@ == v@.push(NUL) ==> f.requires((run,)),
    ensures
        exists|run: &[u8]| run@ == v@.push(NUL) && f.ensures((run,), out),
{
    let g = |p: &[u8], _n: usize| -> (r: T)
        requires
            p@ == v@.push(NUL),
        ensures
            f.ensures((p,), r),
        {
            f(p)
        };
    with_c_str_len(v, checked, g)
}

/// What can be turned into a C string.
///
/// `c_bytes` says which bytes a value stands for. The conversions copy them
/// into a fresh string; the scoped accesses lend them, with a terminator
/// after them, to a visitor, and what was lent is gone when the visitor
/// returns. The checked forms leave out a source that holds a terminator
/// among its bytes; the unchecked forms take it as it is.
pub trait ToCStr {
    /// The bytes that the receiver stands for, without a terminator.
    spec fn c_bytes(&self) -> Seq<u8>;

    /// Copies the receiver into a fresh `CString`.
    fn to_c_str(&self) -> (s: CString)
        requires
            !has_nul(self.c_bytes()),
        ensures
            s.wf(),
            s@ == self.c_bytes(),
            s.mem() == self.c_bytes().push(NUL),
            s.spec_len() == self.c_bytes().len(),
            s.dtor() == Some(Dtor::Free),
            c_len(s.mem()) == s.spec_len(),
    ;

    /// Copies the receiver into a fresh `CString` without asking whether it
    /// holds a terminator. Where it does, the string has the receiver's
    /// length all the same, and a scan of its memory stops early, at the
    /// receiver's first terminator.
    fn to_c_str_unchecked(&self) -> (s: CString)
        ensures
            s.wf(),
            s@ == self.c_bytes(),
            s.mem() == self.c_bytes().push(NUL),
            s.spec_len() == self.c_bytes().len(),
            s.dtor() == Some(Dtor::Free),
            c_len(s.mem()) == c_len(self.c_bytes()),
    ;

    /// Lends the receiver, with a terminator after it, to `f`.
    fn with_c_str<T, F: FnOnce(&[u8]) -> T>(&self, f: F) -> (out: T)
        requires
            !has_nul(self.c_bytes()),
            forall|run: &[u8]| run@ == self.c_bytes().push(NUL) ==> f.requires((run,)),
        ensures
            exists|run: &[u8]| run@ == self.c_bytes().push(NUL) && f.ensures((run,), out),
    {
        let c_str = self.to_c_str();
        f(c_str.as_bytes())
    }

    /// Lends the receiver, with a terminator after it, to `f`, without
    /// asking whether it holds a terminator.
    fn with_c_str_unchecked<T, F: FnOnce(&[u8]) -> T>(&self, f: F) -> (out: T)
        requires
            forall|run: &[u8]| run@ == self.c_bytes().push(NUL) ==> f.requires((run,)),
        ensures
            exists|run: &[u8]| run@ == self.c_bytes().push(NUL) && f.ensures((run,), out),
    {
        let c_str = self.to_c_str_unchecked();
        f(c_str.as_bytes())
    }

    /// Lends the receiver, with a terminator after it, and its length to
    /// `f`.
    fn with_c_str_len<T, F: FnOnce(&[u8], usize) -> T>(&self, f: F) -> (out: T)
        requires
            !has_nul(self.c_bytes()),
            forall|run: &[u8]|
                run@ == self.c_bytes().push(NUL) ==> f.requires(
                    (run, self.c_bytes().len() as usize),
                ),
        ensures
            exists|run: &[u8]|
                run@ == self.c_bytes().push(NUL) && f.ensures(
                    (run, self.c_bytes().len() as usize),
                    out,
                ),
    {
        let c_str = self.to_c_str();
        f(c_str.as_bytes(), c_str.len())
    }

    /// Lends the receiver, with a terminator after it, and its length to
    /// `f`, without asking whether it holds a terminator.
    fn with_c_str_len_unchecked<T, F: FnOnce(&[u8], usize) -> T>(&self, f: F) -> (out: T)
        requires
            forall|run: &[u8]|
                run@ == self.c_bytes().push(NUL) ==> f.requires(
                    (run, self.c_bytes().len() as usize),
                ),
        ensures
            exists|run: &[u8]|
                run@ == self.c_bytes().push(NUL) && f.ensures(
                    (run, self.c_bytes().len() as usize),
                    out,
                ),
    {
        let c_str = self.to_c_str_unchecked();
        f(c_str.as_bytes(), c_str.len())
    }
}

impl ToCStr for [u8] {
    open spec fn c_bytes(&self) -> Seq<u8> {
        self@
    }

    fn to_c_str(&self) -> (s: CString) {
        proof {
            lemma_c_len_bounds(self@);
        }
        self.to_c_str_unchecked()
    }

    fn to_c_str_unchecked(&self) -> (s: CString) {
        str_dup(self)
    }

    fn with_c_str<T, F: FnOnce(&[u8]) -> T>(&self, f: F) -> (out: T) {
        self::with_c_str(self, true, f)
    }

    fn with_c_str_unchecked<T, F: FnOnce(&[u8]) -> T>(&self, f: F) -> (out: T) {
        self::with_c_str(self, false, f)
    }

    fn with_c_str_len<T, F: FnOnce(&[u8], usize) -> T>(&self, f: F) -> (out: T) {
        self::with_c_str_len(self, true, f)
    }

    fn with_c_str_len_unchecked<T, F: FnOnce(&[u8], usize) -> T>(&self, f: F) -> (out: T) {
        self::with_c_str_len(self, false, f)
    }
}

impl ToCStr for str {
    open spec fn c_bytes(&self) -> Seq<u8> {
        self.spec_bytes()
    }

    fn to_c_str(&self) -> (s: CString) {
        self.as_bytes().to_c_str()
    }

    fn to_c_str_unchecked(&self) -> (s: CString) {
        self.as_bytes().to_c_str_unchecked()
    }

    fn with_c_str<T, F: FnOnce(&[u8]) -> T>(&self, f: F) -> (out: T) {
        self.as_bytes().with_c_str(f)
    }

    fn with_c_str_unchecked<T, F: FnOnce(&[u8]) -> T>(&self, f: F) -> (out: T) {
        self.as_bytes().with_c_str_unchecked(f)
    }

    fn with_c_str_len<T, F: FnOnce(&[u8], usize) -> T>(&self, f: F) -> (out: T) {
        self.as_bytes().with_c_str_len(f)
    }

    fn with_c_str_len_unchecked<T, F: FnOnce(&[u8], usize) -> T>(&self, f: F) -> (out: T) {
        self.as_bytes().with_c_str_len_unchecked(f)
    }
}

impl ToCStr for String {
    open spec fn c_bytes(&self) -> Seq<u8> {
        vstd::utf8::encode_utf8(self@)
    }

    fn to_c_str(&self) -> (s: CString) {
        self.as_str().as_bytes().to_c_str()
    }

    fn to_c_str_unchecked(&self) -> (s: CString) {
        self.as_str().as_bytes().to_c_str_unchecked()
    }

    fn with_c_str<T, F: FnOnce(&[u8]) -> T>(&self, f: F) -> (out: T) {
        self.as_str().as_bytes().with_c_str(f)
    }

    fn with_c_str_unchecked<T, F: FnOnce(&[u8]) -> T>(&self, f: F) -> (out: T) {
        self.as_str().as_bytes().with_c_str_unchecked(f)
    }

    fn with_c_str_len<T, F: FnOnce(&[u8], usize) -> T>(&self, f: F) -> (out: T) {
        self.as_str().as_bytes().with_c_str_len(f)
    }

    fn with_c_str_len_unchecked<T, F: FnOnce(&[u8], usize) -> T>(&self, f: F) -> (out: T) {
        self.as_str().as_bytes().with_c_str_len_unchecked(f)
    }
}

impl<'a, S: ToCStr + ?Sized> ToCStr for &'a S {
    open spec fn c_bytes(&self) -> Seq<u8> {
        (**self).c_bytes()
    }

    fn to_c_str(&self) -> (s: CString) {
        (**self).to_c_str()
    }

    fn to_c_str_unchecked(&self) -> (s: CString) {
        (**self).to_c_str_unchecked()
    }

    fn with_c_str<T, F: FnOnce(&[u8]) -> T>(&self, f: F) -> (out: T) {
        (**self).with_c_str(f)
    }

    fn with_c_str_unchecked<T, F: FnOnce(&[u8]) -> T>(&self, f: F) -> (out: T) {
        (**self).with_c_str_unchecked(f)
    }

    fn with_c_str_len<T, F: FnOnce(&[u8], usize) -> T>(&self, f: F) -> (out: T) {
        (**self).with_c_str_len(f)
    }

    fn with_c_str_len_unchecked<T, F: FnOnce(&[u8], usize) -> T>(&self, f: F) -> (out: T) {
        (**self).with_c_str_len_unchecked(f)
    }
}

impl ToCStr for CStrBuf {
    /// The bytes before the buffer's first terminator.
    open spec fn c_bytes(&self) -> Seq<u8> {
        self@
    }

    fn to_c_str(&self) -> (s: CString) {
        self.to_c_str_unchecked()
    }

    fn to_c_str_unchecked(&self) -> (s: CString) {
        str_dup(self.borrow_with_len().as_bytes_no_nul())
    }

    fn with_c_str<T, F: FnOnce(&[u8]) -> T>(&self, f: F) -> (out: T) {
        f(self.borrow_with_len().as_bytes())
    }

    fn with_c_str_unchecked<T, F: FnOnce(&[u8]) -> T>(&self, f: F) -> (out: T) {
        f(self.borrow_with_len().as_bytes())
    }

    fn with_c_str_len<T, F: FnOnce(&[u8], usize) -> T>(&self, f: F) -> (out: T) {
        let view = self.borrow_with_len();
        f(view.as_bytes(), view.len())
    }

    fn with_c_str_len_unchecked<T, F: FnOnce(&[u8], usize) -> T>(&self, f: F) -> (out: T) {
        let view = self.borrow_with_len();
        f(view.as_bytes(), view.len())
    }
}

impl ToCStr for CString {
    /// The string's bytes, as many as its length says.
    open spec fn c_bytes(&self) -> Seq<u8> {
        self@
    }

    fn to_c_str(&self) -> (s: CString) {
        proof {
            lemma_c_len_bounds(self@);
        }
        self.to_c_str_unchecked()
    }

    fn to_c_str_unchecked(&self) -> (s: CString) {
        str_dup(self.as_bytes_no_nul())
    }

    fn with_c_str<T, F: FnOnce(&[u8]) -> T>(&self, f: F) -> (out: T) {
        f(self.as_bytes())
    }

    fn with_c_str_unchecked<T, F: FnOnce(&[u8]) -> T>(&self, f: F) -> (out: T) {
        f(self.as_bytes())
    }

    fn with_c_str_len<T, F: FnOnce(&[u8], usize) -> T>(&self, f: F) -> (out: T) {
        f(self.as_bytes(), self.len())
    }

    fn with_c_str_len_unchecked<T, F: FnOnce(&[u8], usize) -> T>(&self, f: F) -> (out: T) {
        f(self.as_bytes(), self.len())
    }
}

impl<'a> ToCStr for BorrowedCString<'a> {
    /// The string's bytes, as many as its length says.
    open spec fn c_bytes(&self) -> Seq<u8> {
        self@
    }

    fn to_c_str(&self) -> (s: CString) {
        proof {
            lemma_c_len_bounds(self@);
        }
        self.to_c_str_unchecked()
    }

    fn to_c_str_unchecked(&self) -> (s: CString) {
        str_dup(self.as_bytes_no_nul())
    }

    fn with_c_str<T, F: FnOnce(&[u8]) -> T>(&self, f: F) -> (out: T) {
        f(self.as_bytes())
    }

    fn with_c_str_unchecked<T, F: FnOnce(&[u8]) -> T>(&self, f: F) -> (out: T) {
        f(self.as_bytes())
    }

    fn with_c_str_len<T, F: FnOnce(&[u8], usize) -> T>(&self, f: F) -> (out: T) {
        f(self.as_bytes(), self.len())
    }

    fn with_c_str_len_unchecked<T, F: FnOnce(&[u8], usize) -> T>(&self, f: F) -> (out: T) {
        f(self.as_bytes(), self.len())
    }
}

} // verus!
