//! The owner of a C string whose length is known.

use crate::borrowed::{BorrowedCString, CChars};
use crate::buf::{CStrBuf, Dtor, Release};
use crate::bytes::{has_nul, is_c_run_of_len, NUL};
use vstd::prelude::*;
use vstd::slice::slice_subrange;
use vstd::string::StringSliceAdditionalSpecFns;
use vstd::utf8::valid_utf8;

verus! {

/// An owned C string with its length.
///
/// It is a [`CStrBuf`] together with the number of bytes that come before
/// the terminator. The length is fixed when the value is made and never
/// scanned for again, so the bytes can be had as slices at no cost.
pub struct CString {
    buf: CStrBuf,
    len: usize,
}

impl View for CString {
    type V = Seq<u8>;

    /// The string's bytes, without the terminator.
    open spec fn view(&self) -> Seq<u8> {
        self.mem().take(self.spec_len() as int)
    }
}

impl CString {
    /// The address of the first byte.
    pub closed spec fn addr(&self) -> usize {
        self.buf.addr()
    }

    /// The bytes stored from the address on.
    pub closed spec fn mem(&self) -> Seq<u8> {
        self.buf.mem()
    }

    /// The release that is still owed.
    pub closed spec fn dtor(&self) -> Option<Dtor> {
        self.buf.dtor()
    }

    /// The cached length, terminator not counted.
    pub closed spec fn spec_len(&self) -> usize {
        self.len
    }

    /// The address is not null, the run ends inside the address space, and
    /// the byte right after the cached length is the terminator.
    pub open spec fn wf(&self) -> bool {
        is_c_run_of_len(self.addr(), self.mem(), self.spec_len())
    }

    #[verifier::type_invariant]
    spec fn inv(&self) -> bool {
        self.wf()
    }

    /// A string of `len` bytes in the run that `buf` owns.
    pub(crate) fn from_buf(buf: CStrBuf, len: usize) -> (s: CString)
        requires
            is_c_run_of_len(buf.addr(), buf.mem(), len),
        ensures
            s.wf(),
            s.addr() == buf.addr(),
            s.mem() == buf.mem(),
            s.dtor() == buf.dtor(),
            s.spec_len() == len,
    {
        CString { buf, len }
    }

    /// Adopts the run `mem` stored at `ptr` as a string of `len` bytes,
    /// without any duty to release it. A null address, and a length that no
    /// terminator follows, are left out.
    pub fn new_unowned(ptr: usize, mem: Vec<u8>, len: usize) -> (s: CString)
        requires
            is_c_run_of_len(ptr, mem@, len),
        ensures
            s.wf(),
            s.addr() == ptr,
            s.mem() == mem@,
            s.spec_len() == len,
            s.dtor() is None,
    {
        proof {
            lemma_len_has_nul(mem@, len);
        }
        CString { buf: CStrBuf::new_unowned(ptr, mem), len }
    }

    /// Adopts the run `mem` stored at `ptr` as a string of `len` bytes; its
    /// memory is owed to the allocator that it came from. A null address, and a length that
    /// no terminator follows, are left out.
    pub fn new_libc(ptr: usize, mem: Vec<u8>, len: usize) -> (s: CString)
        requires
            is_c_run_of_len(ptr, mem@, len),
        ensures
            s.wf(),
            s.addr() == ptr,
            s.mem() == mem@,
            s.spec_len() == len,
            s.dtor() == Some(Dtor::Free),
    {
        CString::new_with_dtor(ptr, mem, len, Dtor::Free)
    }

    /// Adopts the run `mem` stored at `ptr` as a string of `len` bytes;
    /// `dtor` is owed when the string is released. A null address, and a
    /// length that no terminator follows, are left out.
    pub fn new_with_dtor(ptr: usize, mem: Vec<u8>, len: usize, dtor: Dtor) -> (s: CString)
        requires
            is_c_run_of_len(ptr, mem@, len),
        ensures
            s.wf(),
            s.addr() == ptr,
            s.mem() == mem@,
            s.spec_len() == len,
            s.dtor() == Some(dtor),
    {
        proof {
            lemma_len_has_nul(mem@, len);
        }
        CString { buf: CStrBuf::new_with_dtor(ptr, mem, dtor), len }
    }

    /// Borrows the string for a view of the same address and length.
    pub fn borrow<'a>(&'a self) -> (view: BorrowedCString<'a>)
        ensures
            view.wf(),
            view.addr() == self.addr(),
            view.mem() == self.mem(),
            view.spec_len() == self.spec_len(),
            view@ == self@,
    {
        proof {
            use_type_invariant(self);
        }
        BorrowedCString::with_len(self.buf.as_ptr(), self.buf.run(), self.len)
    }

    /// The address of the string's first byte. The string keeps what it
    /// owes; the address says nothing once the string is gone.
    pub fn as_ptr(&self) -> (ptr: usize)
        ensures
            ptr == self.addr(),
            ptr != 0,
    {
        self.buf.as_ptr()
    }

    /// Whether a release is still owed.
    pub fn owns_buffer(&self) -> (owns: bool)
        ensures
            owns == self.dtor() is Some,
    {
        self.buf.owns_buffer()
    }

    /// The string's bytes with the terminator after them.
    pub fn as_bytes<'a>(&'a self) -> (bytes: &'a [u8])
        ensures
            bytes@ == self@.push(NUL),
    {
        proof {
            use_type_invariant(self);
        }
        let bytes = slice_subrange(self.buf.run(), 0, self.len + 1);
        assert(bytes@ =~= self@.push(NUL));
        bytes
    }

    /// The string's bytes, without the terminator.
    pub fn as_bytes_no_nul<'a>(&'a self) -> (bytes: &'a [u8])
        ensures
            bytes@ == self@,
    {
        proof {
            use_type_invariant(self);
        }
        slice_subrange(self.buf.run(), 0, self.len)
    }

    /// The string as text, where its bytes are valid UTF-8.
    pub fn as_str<'a>(&'a self) -> (text: Option<&'a str>)
        ensures
            text is Some <==> valid_utf8(self@),
            text matches Some(s) ==> s.spec_bytes() == self@,
    {
        let buf = self.as_bytes_no_nul();
        match core::str::from_utf8(buf) {
            Ok(s) => Some(s),
            Err(_) => None,
        }
    }

    /// A cursor at the string's first byte.
    pub fn iter<'a>(&'a self) -> (chars: CChars<'a>)
        ensures
            chars.wf(),
            chars.addr() == self.addr(),
            chars.mem() == self.mem(),
    {
        self.buf.iter()
    }

    /// Gives up the string without any release: the caller gets the address
    /// and the bytes, and whatever was owed to the memory is the caller's
    /// to do from now on.
    pub fn unwrap(self) -> (raw: (usize, Vec<u8>))
        ensures
            raw.0 == self.addr(),
            raw.0 != 0,
            raw.1@ == self.mem(),
    {
        self.buf.unwrap()
    }

    /// The number of bytes before the terminator.
    #[verifier::when_used_as_spec(spec_len)]
    pub fn len(&self) -> (len: usize)
        ensures
            len == self.spec_len(),
            len == self@.len(),
    {
        proof {
            use_type_invariant(self);
        }
        self.len
    }

    /// Whether the string has no bytes before its terminator.
    pub fn is_empty(&self) -> (empty: bool)
        ensures
            empty == (self@.len() == 0),
    {
        proof {
            use_type_invariant(self);
        }
        self.len == 0
    }

    /// Lets go of the memory: hands out the release that is owed, with the
    /// address it is to run on, and owes nothing afterwards. A second call
    /// hands out nothing.
    pub fn release(&mut self) -> (due: Option<Release>)
        ensures
            final(self).wf(),
            final(self).addr() == old(self).addr(),
            final(self).mem() == old(self).mem(),
            final(self).spec_len() == old(self).spec_len(),
            final(self).dtor() is None,
            due == match old(self).dtor() {
                Some(dtor) => Some(Release { dtor, ptr: old(self).addr() }),
                None => None,
            },
    {
        proof {
            use_type_invariant(&*self);
        }
        self.buf.release()
    }
}

/// A run with a terminator right after its first `len` bytes has a
/// terminator.
proof fn lemma_len_has_nul(mem: Seq<u8>, len: usize)
    requires
        len < mem.len(),
        mem[len as int] == NUL,
    ensures
        has_nul(mem),
{
}

} // verus!
