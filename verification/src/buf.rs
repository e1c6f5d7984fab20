//! The owner of a C string whose length is not known yet, and what it owes
//! to the string's memory.

use crate::borrowed::{BorrowedCString, CChars};
use crate::bytes::{
    c_len, content, is_c_run, lemma_c_len_bounds, lemma_c_len_terminated, strlen, NUL,
};
use crate::string::CString;
use vstd::prelude::*;
use vstd::slice::{slice_subrange, slice_to_vec};
use vstd::utf8::valid_utf8;

verus! {

/// What is owed to the memory of a run when its owner lets go of it.
#[derive(Clone, Copy, PartialEq, Eq, Debug, Structural)]
pub enum Dtor {
    /// The memory goes back to the allocator that it came from.
    Free,
    /// An action of the caller's own, which the caller knows by this handle.
    Custom(usize),
}

/// A release that has come due: `dtor` is to be run on the address `ptr`.
#[derive(Clone, Copy, PartialEq, Eq, Debug, Structural)]
pub struct Release {
    pub dtor: Dtor,
    pub ptr: usize,
}

/// An owned C string of unknown length.
///
/// It holds the address of the string's first byte, the bytes stored from
/// there on, and the release that is still owed, if any. Nothing here needs
/// the string's length; promote the buffer with
/// [`into_c_str`](CStrBuf::into_c_str) to have it computed once.
pub struct CStrBuf {
    ptr: usize,
    mem: Vec<u8>,
    dtor: Option<Dtor>,
}

impl View for CStrBuf {
    type V = Seq<u8>;

    /// The string's bytes, without the terminator.
    open spec fn view(&self) -> Seq<u8> {
        content(self.mem())
    }
}

impl CStrBuf {
    /// The address of the first byte.
    pub closed spec fn addr(&self) -> usize {
        self.ptr
    }

    /// The bytes stored from the address on.
    pub closed spec fn mem(&self) -> Seq<u8> {
        self.mem@
    }

    /// The release that is still owed.
    pub closed spec fn dtor(&self) -> Option<Dtor> {
        self.dtor
    }

    /// The address is not null and the run is a C string.
    pub open spec fn wf(&self) -> bool {
        is_c_run(self.addr(), self.mem())
    }

    #[verifier::type_invariant]
    spec fn inv(&self) -> bool {
        self.wf()
    }

    /// Adopts the run `mem` stored at `ptr` without any duty to release it.
    /// A null address is not a C string and is left out.
    pub fn new_unowned(ptr: usize, mem: Vec<u8>) -> (buf: CStrBuf)
        requires
            is_c_run(ptr, mem@),
        ensures
            buf.wf(),
            buf.addr() == ptr,
            buf.mem() == mem@,
            buf.dtor() is None,
    {
        CStrBuf { ptr, mem, dtor: None }
    }

    /// Adopts the run `mem` stored at `ptr`; its memory is owed to the
    /// allocator that it came from. A null address is not a C string and is left out.
    pub fn new_libc(ptr: usize, mem: Vec<u8>) -> (buf: CStrBuf)
        requires
            is_c_run(ptr, mem@),
        ensures
            buf.wf(),
            buf.addr() == ptr,
            buf.mem() == mem@,
            buf.dtor() == Some(Dtor::Free),
    {
        CStrBuf::new_with_dtor(ptr, mem, Dtor::Free)
    }

    /// Adopts the run `mem` stored at `ptr`; `dtor` is owed when the buffer
    /// is released. A null address is not a C string and is left out.
    pub fn new_with_dtor(ptr: usize, mem: Vec<u8>, dtor: Dtor) -> (buf: CStrBuf)
        requires
            is_c_run(ptr, mem@),
        ensures
            buf.wf(),
            buf.addr() == ptr,
            buf.mem() == mem@,
            buf.dtor() == Some(dtor),
    {
        CStrBuf { ptr, mem, dtor: Some(dtor) }
    }

    /// Borrows the string for a view that knows its length, which is scanned
    /// for on each call.
    pub fn borrow_with_len<'a>(&'a self) -> (view: BorrowedCString<'a>)
        ensures
            view.wf(),
            view.addr() == self.addr(),
            view.mem() == self.mem(),
            view.spec_len() == c_len(self.mem()),
            view@ == self@,
    {
        proof {
            use_type_invariant(self);
        }
        BorrowedCString::wrap(self.ptr, self.mem.as_slice())
    }

    /// Promotes the buffer to a `CString`: the length is scanned for once,
    /// and address, bytes and the release that is owed go over unchanged.
    pub fn into_c_str(self) -> (s: CString)
        ensures
            s.wf(),
            s.addr() == self.addr(),
            s.mem() == self.mem(),
            s.dtor() == self.dtor(),
            s.spec_len() == c_len(self.mem()),
            s@ == self@,
    {
        proof {
            use_type_invariant(&self);
        }
        let len = strlen(self.mem.as_slice());
        CString::from_buf(self, len)
    }

    /// Copies the string into a `String`, where its bytes are valid UTF-8.
    pub fn to_string(&self) -> (text: Option<String>)
        ensures
            text is Some <==> valid_utf8(self@),
            text matches Some(s) ==> s@ == vstd::utf8::decode_utf8(self@),
    {
        proof {
            use_type_invariant(self);
        }
        let len = strlen(self.mem.as_slice());
        let bytes = slice_subrange(self.mem.as_slice(), 0, len);
        match core::str::from_utf8(bytes) {
            Ok(s) => {
                proof {
                    vstd::utf8::encode_utf8_decode_utf8(s@);
                }
                Some(s.to_owned())
            },
            Err(_) => None,
        }
    }

    /// Copies the string's bytes, without the terminator, into a vector.
    pub fn to_vec(&self) -> (bytes: Vec<u8>)
        ensures
            bytes@ == self@,
    {
        proof {
            use_type_invariant(self);
        }
        let len = strlen(self.mem.as_slice());
        slice_to_vec(slice_subrange(self.mem.as_slice(), 0, len))
    }

    /// The address of the string's first byte. The buffer keeps what it
    /// owes; the address says nothing once the buffer is gone.
    pub fn as_ptr(&self) -> (ptr: usize)
        ensures
            ptr == self.addr(),
            ptr != 0,
    {
        proof {
            use_type_invariant(self);
        }
        self.ptr
    }

    /// The bytes stored from the address on.
    pub(crate) fn run(&self) -> (mem: &[u8])
        ensures
            mem@ == self.mem(),
    {
        self.mem.as_slice()
    }

    /// Whether a release is still owed.
    pub fn owns_buffer(&self) -> (owns: bool)
        ensures
            owns == self.dtor() is Some,
    {
        self.dtor.is_some()
    }

    /// A cursor at the string's first byte.
    pub fn iter<'a>(&'a self) -> (chars: CChars<'a>)
        ensures
            chars.wf(),
            chars.addr() == self.addr(),
            chars.mem() == self.mem(),
            chars@ == self@,
    {
        proof {
            use_type_invariant(self);
        }
        CChars::at(self.ptr, self.mem.as_slice())
    }

    /// Gives up the buffer without any release: the caller gets the address
    /// and the bytes, and whatever was owed to the memory is the caller's
    /// to do from now on.
    pub fn unwrap(self) -> (raw: (usize, Vec<u8>))
        ensures
            raw.0 == self.addr(),
            raw.0 != 0,
            raw.1@ == self.mem(),
    {
        proof {
            use_type_invariant(&self);
        }
        let CStrBuf { ptr, mem, dtor: _ } = self;
        (ptr, mem)
    }

    /// Whether the string has no bytes before its terminator.
    pub fn is_empty(&self) -> (empty: bool)
        ensures
            empty == (self@.len() == 0),
    {
        proof {
            use_type_invariant(self);
            lemma_c_len_terminated(self.mem());
            lemma_c_len_bounds(self.mem());
        }
        self.mem[0] == NUL
    }

    /// Lets go of the memory: hands out the release that is owed, with the
    /// address it is to run on, and owes nothing afterwards. A second call
    /// hands out nothing.
    pub fn release(&mut self) -> (due: Option<Release>)
        ensures
            final(self).wf(),
            final(self).addr() == old(self).addr(),
            final(self).mem() == old(self).mem(),
            final(self).dtor() is None,
            due == match old(self).dtor() {
                Some(dtor) => Some(Release { dtor, ptr: old(self).addr() }),
                None => None,
            },
        no_unwind
    {
        proof {
            use_type_invariant(&*self);
        }
        let owed = self.dtor;
        self.dtor = None;
        match owed {
            None => None,
            Some(dtor) => Some(Release { dtor, ptr: self.ptr }),
        }
    }
}

} // verus!
