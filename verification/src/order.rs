//! Equality and order of C strings: by their bytes, whatever their
//! addresses and whatever they owe.

use crate::buf::CStrBuf;
use crate::string::CString;
use core::cmp::Ordering;
use vstd::prelude::*;
use vstd::std_specs::cmp::{PartialEqSpecImpl, PartialOrdSpecImpl};

verus! {

/// `a` and `b` agree before index `k`, and there `a` has ended or holds the
/// smaller byte, while `b` goes on.
pub open spec fn before_at(a: Seq<u8>, b: Seq<u8>, k: int) -> bool {
    &&& 0 <= k <= a.len()
    &&& k < b.len()
    &&& forall|j: int| 0 <= j < k ==> a[j] == b[j]
    &&& (k == a.len() || a[k] < b[k])
}

/// `a` comes before `b` in the order of byte strings: at the first index
/// where they differ `a` holds the smaller byte, or `a` ends where `b` goes
/// on.
pub open spec fn bytes_lt(a: Seq<u8>, b: Seq<u8>) -> bool {
    exists|k: int| before_at(a, b, k)
}

/// How `a` stands to `b` in the order of byte strings.
pub open spec fn bytes_order(a: Seq<u8>, b: Seq<u8>) -> Ordering {
    if a == b {
        Ordering::Equal
    } else if bytes_lt(a, b) {
        Ordering::Less
    } else {
        Ordering::Greater
    }
}

/// Strings that agree on every index and end together are equal.
proof fn lemma_same(a: Seq<u8>, b: Seq<u8>)
    requires
        a.len() == b.len(),
        forall|j: int| 0 <= j < a.len() ==> a[j] == b[j],
    ensures
        a == b,
{
    assert(a =~= b);
}

/// A string that comes before another is not equal to it and does not come
/// after it.
proof fn lemma_before(a: Seq<u8>, b: Seq<u8>, i: usize)
    requires
        before_at(a, b, i as int),
    ensures
        bytes_lt(a, b),
        a != b,
        !bytes_lt(b, a),
{
    let k = i as int;
    if a == b {
        assert(a[k] == b[k]);
    }
    if bytes_lt(b, a) {
        let m = choose|m: int| before_at(b, a, m);
        if m < k {
            assert(a[m] == b[m]);
        } else if k < m {
            assert(b[k] == a[k]);
        }
    }
}

/// Compares two byte strings in the order of byte strings.
pub fn compare(a: &[u8], b: &[u8]) -> (r: Ordering)
    ensures
        r == bytes_order(a@, b@),
{
    let mut i: usize = 0;
    loop
        invariant
            i <= a@.len(),
            i <= b@.len(),
            forall|j: int| 0 <= j < i ==> a@[j] == b@[j],
        decreases a@.len() - i,
    {
        if i == a.len() {
            if i == b.len() {
                proof {
                    lemma_same(a@, b@);
                }
                return Ordering::Equal;
            }
            proof {
                lemma_before(a@, b@, i);
            }
            return Ordering::Less;
        }
        if i == b.len() {
            proof {
                lemma_before(b@, a@, i);
            }
            return Ordering::Greater;
        }
        if a[i] < b[i] {
            proof {
                lemma_before(a@, b@, i);
            }
            return Ordering::Less;
        }
        if a[i] > b[i] {
            proof {
                lemma_before(b@, a@, i);
            }
            return Ordering::Greater;
        }
        i = i + 1;
    }
}

impl PartialEq for CString {
    /// Two strings are equal where their bytes are.
    fn eq(&self, other: &CString) -> (r: bool) {
        match compare(self.as_bytes_no_nul(), other.as_bytes_no_nul()) {
            Ordering::Equal => true,
            _ => false,
        }
    }
}

impl PartialEqSpecImpl for CString {
    open spec fn obeys_eq_spec() -> bool {
        true
    }

    open spec fn eq_spec(&self, other: &CString) -> bool {
        self@ == other@
    }
}

impl Eq for CString {

}

impl PartialOrd for CString {
    /// Strings are ordered as their bytes are.
    fn partial_cmp(&self, other: &CString) -> (r: Option<Ordering>) {
        Some(compare(self.as_bytes_no_nul(), other.as_bytes_no_nul()))
    }
}

impl PartialOrdSpecImpl for CString {
    open spec fn obeys_partial_cmp_spec() -> bool {
        true
    }

    open spec fn partial_cmp_spec(&self, other: &CString) -> Option<Ordering> {
        Some(bytes_order(self@, other@))
    }
}

impl CString {
    /// How the string stands to `other` in the order of their bytes.
    pub fn cmp(&self, other: &CString) -> (r: Ordering)
        ensures
            r == bytes_order(self@, other@),
    {
        compare(self.as_bytes_no_nul(), other.as_bytes_no_nul())
    }
}

impl PartialEq for CStrBuf {
    /// Two buffers are equal where their bytes before the terminator are.
    fn eq(&self, other: &CStrBuf) -> (r: bool) {
        let a = self.borrow_with_len();
        let b = other.borrow_with_len();
        match compare(a.as_bytes_no_nul(), b.as_bytes_no_nul()) {
            Ordering::Equal => true,
            _ => false,
        }
    }
}

impl PartialEqSpecImpl for CStrBuf {
    open spec fn obeys_eq_spec() -> bool {
        true
    }

    open spec fn eq_spec(&self, other: &CStrBuf) -> bool {
        self@ == other@
    }
}

impl Eq for CStrBuf {

}

impl PartialOrd for CStrBuf {
    /// Buffers are ordered as their bytes before the terminator are.
    fn partial_cmp(&self, other: &CStrBuf) -> (r: Option<Ordering>) {
        let a = self.borrow_with_len();
        let b = other.borrow_with_len();
        Some(compare(a.as_bytes_no_nul(), b.as_bytes_no_nul()))
    }
}

impl PartialOrdSpecImpl for CStrBuf {
    open spec fn obeys_partial_cmp_spec() -> bool {
        true
    }

    open spec fn partial_cmp_spec(&self, other: &CStrBuf) -> Option<Ordering> {
        Some(bytes_order(self@, other@))
    }
}

impl CStrBuf {
    /// How the buffer stands to `other` in the order of their bytes before
    /// the terminator.
    pub fn cmp(&self, other: &CStrBuf) -> (r: Ordering)
        ensures
            r == bytes_order(self@, other@),
    {
        let a = self.borrow_with_len();
        let b = other.borrow_with_len();
        compare(a.as_bytes_no_nul(), b.as_bytes_no_nul())
    }
}

} // verus!
