//! Views of C strings that somebody else owns: a length-aware view and a
//! cursor over the bytes.

use crate::bytes::{
    c_len, content, has_nul, is_c_run, lemma_c_len_bounds, lemma_c_len_skip_one,
    lemma_c_len_terminated, strlen, NUL,
};
use vstd::prelude::*;
use vstd::slice::slice_subrange;
use vstd::string::StringSliceAdditionalSpecFns;
use vstd::utf8::valid_utf8;

verus! {

/// A borrowed C string with its length.
///
/// It aliases a run that lives elsewhere for `'a`: the address of the run's
/// first byte, the bytes stored there, and the number of them that come
/// before the terminator. It owns nothing and releases nothing.
pub struct BorrowedCString<'a> {
    ptr: usize,
    mem: &'a [u8],
    len: usize,
}

impl<'a> View for BorrowedCString<'a> {
    type V = Seq<u8>;

    /// The string's bytes, without the terminator.
    open spec fn view(&self) -> Seq<u8> {
        self.mem().take(self.spec_len() as int)
    }
}

impl<'a> BorrowedCString<'a> {
    /// The address of the first byte.
    pub closed spec fn addr(&self) -> usize {
        self.ptr
    }

    /// The bytes stored from the address on.
    pub closed spec fn mem(&self) -> Seq<u8> {
        self.mem@
    }

    /// The cached length, terminator not counted.
    pub closed spec fn spec_len(&self) -> usize {
        self.len
    }

    /// The address is not null, the run ends inside the address space, and
    /// the byte right after the cached length is the terminator.
    pub open spec fn wf(&self) -> bool {
        &&& self.addr() != 0
        &&& self.addr() + self.mem().len() <= usize::MAX
        &&& self.spec_len() < self.mem().len()
        &&& self.mem()[self.spec_len() as int] == NUL
    }

    #[verifier::type_invariant]
    spec fn inv(&self) -> bool {
        self.wf()
    }

    /// Wraps the run `mem` stored at `ptr`, scanning it once for its length.
    /// A null address is not a C string and is left out.
    pub fn wrap(ptr: usize, mem: &'a [u8]) -> (view: BorrowedCString<'a>)
        requires
            is_c_run(ptr, mem@),
        ensures
            view.wf(),
            view.addr() == ptr,
            view.mem() == mem@,
            view.spec_len() == c_len(mem@),
            view@ == content(mem@),
    {
        let len = strlen(mem);
        BorrowedCString { ptr, mem, len }
    }

    /// A view of the run `mem` at `ptr` whose length is known already.
    pub(crate) fn with_len(ptr: usize, mem: &'a [u8], len: usize) -> (view: BorrowedCString<'a>)
        requires
            ptr != 0,
            ptr + mem@.len() <= usize::MAX,
            len < mem@.len(),
            mem@[len as int] == NUL,
        ensures
            view.wf(),
            view.addr() == ptr,
            view.mem() == mem@,
            view.spec_len() == len,
    {
        BorrowedCString { ptr, mem, len }
    }

    /// The address of the string's first byte. It says nothing once the
    /// owner of the run is gone.
    pub fn as_ptr(&self) -> (ptr: usize)
        ensures
            ptr == self.addr(),
            ptr != 0,
    {
        proof {
            use_type_invariant(self);
        }
        self.ptr
    }

    /// The string's bytes with the terminator after them.
    pub fn as_bytes(&self) -> (bytes: &'a [u8])
        ensures
            bytes@ == self@.push(NUL),
    {
        proof {
            use_type_invariant(self);
        }
        let bytes = slice_subrange(self.mem, 0, self.len + 1);
        assert(bytes@ =~= self@.push(NUL));
        bytes
    }

    /// The string's bytes, without the terminator.
    pub fn as_bytes_no_nul(&self) -> (bytes: &'a [u8])
        ensures
            bytes@ == self@,
    {
        proof {
            use_type_invariant(self);
        }
        slice_subrange(self.mem, 0, self.len)
    }

    /// The string as text, where its bytes are valid UTF-8.
    pub fn as_str(&self) -> (text: Option<&'a str>)
        ensures
            text is Some <==> valid_utf8(self@),
            text matches Some(s) ==> s.spec_bytes() == self@,
    {
        let buf = self.as_bytes_no_nul();
        match core::str::from_utf8(buf) {
            Ok(s) => Some(s),
            Err(_) => None,
        }
    }

    /// A cursor at the string's first byte.
    pub fn iter(&self) -> (chars: CChars<'a>)
        ensures
            chars.wf(),
            chars.addr() == self.addr(),
            chars.mem() == self.mem(),
    {
        proof {
            use_type_invariant(self);
            assert(has_nul(self.mem())) by {
                assert(self.mem()[self.spec_len() as int] == NUL);
            }
        }
        CChars { ptr: self.ptr, mem: self.mem }
    }

    /// The number of bytes before the terminator.
    #[verifier::when_used_as_spec(spec_len)]
    pub fn len(&self) -> (len: usize)
        ensures
            len == self.spec_len(),
            len == self@.len(),
    {
        proof {
            use_type_invariant(self);
        }
        self.len
    }

    /// Whether the string has no bytes before its terminator.
    pub fn is_empty(&self) -> (empty: bool)
        ensures
            empty == (self@.len() == 0),
    {
        proof {
            use_type_invariant(self);
        }
        self.len == 0
    }
}

/// A cursor over the bytes of a C string.
///
/// It stands at an address inside a run that lives for `'a` and sees the
/// bytes from there on. It moves one byte at a time and stops at the
/// terminator, which it never hands out and never passes.
pub struct CChars<'a> {
    ptr: usize,
    mem: &'a [u8],
}

impl<'a> View for CChars<'a> {
    type V = Seq<u8>;

    /// The bytes that the cursor has yet to hand out.
    open spec fn view(&self) -> Seq<u8> {
        content(self.mem())
    }
}

impl<'a> CChars<'a> {
    /// The address at which the cursor stands.
    pub closed spec fn addr(&self) -> usize {
        self.ptr
    }

    /// The bytes stored from the cursor on.
    pub closed spec fn mem(&self) -> Seq<u8> {
        self.mem@
    }

    /// The cursor stands in a C string.
    pub open spec fn wf(&self) -> bool {
        is_c_run(self.addr(), self.mem())
    }

    #[verifier::type_invariant]
    spec fn inv(&self) -> bool {
        self.wf()
    }

    /// A cursor at `ptr`, where the run `mem` is stored.
    pub(crate) fn at(ptr: usize, mem: &'a [u8]) -> (chars: CChars<'a>)
        requires
            is_c_run(ptr, mem@),
        ensures
            chars.wf(),
            chars.addr() == ptr,
            chars.mem() == mem@,
    {
        CChars { ptr, mem }
    }

    /// The rest of the string, from the cursor on, with its length scanned
    /// anew.
    pub fn remaining_c_str(&self) -> (view: BorrowedCString<'a>)
        ensures
            view.wf(),
            view.addr() == self.addr(),
            view.mem() == self.mem(),
            view.spec_len() == c_len(self.mem()),
            view@ == self@,
    {
        proof {
            use_type_invariant(self);
        }
        BorrowedCString::wrap(self.ptr, self.mem)
    }

    /// Hands out the byte under the cursor and moves one byte on; at the
    /// terminator it hands out nothing and stays.
    pub fn next(&mut self) -> (byte: Option<u8>)
        ensures
            final(self).wf(),
            byte == (if old(self)@.len() == 0 {
                None
            } else {
                Some(old(self)@[0])
            }),
            byte is None ==> final(self).addr() == old(self).addr() && final(self).mem() == old(
                self,
            ).mem(),
            byte is Some ==> final(self).addr() == old(self).addr() + 1 && final(self).mem()
                == old(self).mem().skip(1),
            final(self)@ == (if old(self)@.len() == 0 {
                old(self)@
            } else {
                old(self)@.skip(1)
            }),
    {
        proof {
            use_type_invariant(&*self);
            lemma_c_len_terminated(self.mem());
            lemma_c_len_bounds(self.mem());
        }
        let ch = self.mem[0];
        if ch == NUL {
            None
        } else {
            proof {
                lemma_c_len_skip_one(self.mem());
                assert(content(self.mem().skip(1)) =~= content(self.mem()).skip(1));
            }
            let rest = slice_subrange(self.mem, 1, self.mem.len());
            *self = CChars { ptr: self.ptr + 1, mem: rest };
            Some(ch)
        }
    }
}

} // verus!
