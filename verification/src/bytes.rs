//! Byte runs and their terminators: where the first zero byte stands and
//! what comes before it.

use vstd::prelude::*;

verus! {

/// The byte that ends a C string.
pub const NUL: u8 = 0;

/// Some byte of `s` is the terminator.
pub open spec fn has_nul(s: Seq<u8>) -> bool {
    exists|i: int| 0 <= i < s.len() && s[i] == NUL
}

/// The first terminator of `s` stands at index `n`.
pub open spec fn terminated_at(s: Seq<u8>, n: int) -> bool {
    &&& 0 <= n < s.len()
    &&& s[n] == NUL
    &&& forall|j: int| 0 <= j < n ==> s[j] != NUL
}

/// The number of bytes before the first terminator of `s`, or the length of
/// `s` where it has none.
pub open spec fn c_len(s: Seq<u8>) -> int {
    if has_nul(s) {
        choose|n: int| terminated_at(s, n)
    } else {
        s.len() as int
    }
}

/// The bytes of `s` before its first terminator.
pub open spec fn content(s: Seq<u8>) -> Seq<u8> {
    s.take(c_len(s))
}

/// A run of bytes `mem` stored at address `ptr` is a C string: the address
/// is not null, the run holds a terminator, and it ends inside the address
/// space.
pub open spec fn is_c_run(ptr: usize, mem: Seq<u8>) -> bool {
    &&& ptr != 0
    &&& has_nul(mem)
    &&& ptr + mem.len() <= usize::MAX
}

/// The run `mem` stored at `ptr` is a C string of `len` bytes: the address is
/// not null, the run ends inside the address space, and the byte right
/// after the first `len` is a terminator.
pub open spec fn is_c_run_of_len(ptr: usize, mem: Seq<u8>, len: usize) -> bool {
    &&& ptr != 0
    &&& ptr + mem.len() <= usize::MAX
    &&& len < mem.len()
    &&& mem[len as int] == NUL
}

/// A zero byte at index `i` has a first zero byte at or before it.
proof fn lemma_least_nul(s: Seq<u8>, i: int)
    requires
        0 <= i < s.len(),
        s[i] == NUL,
    ensures
        exists|n: int| 0 <= n <= i && terminated_at(s, n),
    decreases i,
{
    if forall|j: int| 0 <= j < i ==> s[j] != NUL {
        assert(terminated_at(s, i));
    } else {
        let j = choose|j: int| 0 <= j < i && s[j] == NUL;
        lemma_least_nul(s, j);
    }
}

/// In a run with a terminator, `c_len` is the index of the first one.
pub proof fn lemma_c_len_terminated(s: Seq<u8>)
    requires
        has_nul(s),
    ensures
        terminated_at(s, c_len(s)),
{
    let i = choose|i: int| 0 <= i < s.len() && s[i] == NUL;
    lemma_least_nul(s, i);
}

/// The first terminator stands at one index only.
pub proof fn lemma_terminated_unique(s: Seq<u8>, n: int)
    requires
        terminated_at(s, n),
    ensures
        has_nul(s),
        c_len(s) == n,
{
    lemma_c_len_terminated(s);
    let m = c_len(s);
    if m < n {
        assert(s[m] != NUL);
    } else if n < m {
        assert(s[n] != NUL);
    }
}

/// `c_len` never leaves the run, and no byte before it is a terminator.
pub proof fn lemma_c_len_bounds(s: Seq<u8>)
    ensures
        0 <= c_len(s) <= s.len(),
        has_nul(s) <==> c_len(s) < s.len(),
        forall|j: int| 0 <= j < c_len(s) ==> s[j] != NUL,
        content(s).len() == c_len(s),
        !has_nul(content(s)),
{
    if has_nul(s) {
        lemma_c_len_terminated(s);
    }
    let c = content(s);
    if has_nul(c) {
        let i = choose|i: int| 0 <= i < c.len() && c[i] == NUL;
        assert(s[i] == NUL);
    }
}

/// A terminator appended to `v` is the first one exactly where `v` has none;
/// where `v` has one, the scan stops there.
pub proof fn lemma_c_len_push_nul(v: Seq<u8>)
    ensures
        has_nul(v.push(NUL)),
        c_len(v.push(NUL)) == c_len(v),
        content(v.push(NUL)) == content(v),
        !has_nul(v) ==> content(v.push(NUL)) == v,
{
    let s = v.push(NUL);
    lemma_c_len_bounds(v);
    let n = c_len(v);
    assert(s[v.len() as int] == NUL);
    assert forall|j: int| 0 <= j < n implies s[j] != NUL by {
        assert(s[j] == v[j]);
    }
    if has_nul(v) {
        lemma_c_len_terminated(v);
        assert(s[n] == v[n]);
    }
    assert(terminated_at(s, n));
    lemma_terminated_unique(s, n);
    assert(content(s) =~= content(v));
    if !has_nul(v) {
        assert(content(v) =~= v);
    }
}

/// Past a byte that is not the terminator, the rest of the run holds the
/// same terminator, one index earlier.
pub proof fn lemma_c_len_skip_one(s: Seq<u8>)
    requires
        has_nul(s),
        s[0] != NUL,
    ensures
        has_nul(s.skip(1)),
        c_len(s.skip(1)) == c_len(s) - 1,
{
    lemma_c_len_terminated(s);
    let n = c_len(s);
    let t = s.skip(1);
    assert(t[n - 1] == s[n]);
    assert forall|j: int| 0 <= j < n - 1 implies t[j] != NUL by {
        assert(t[j] == s[j + 1]);
    }
    assert(terminated_at(t, n - 1));
    lemma_terminated_unique(t, n - 1);
}

/// Scans `mem` for its first terminator and returns the number of bytes
/// before it.
pub fn strlen(mem: &[u8]) -> (n: usize)
    requires
        has_nul(mem@),
    ensures
        n == c_len(mem@),
        terminated_at(mem@, n as int),
{
    proof {
        lemma_c_len_terminated(mem@);
    }
    let mut n: usize = 0;
    while mem[n] != NUL
        invariant
            terminated_at(mem@, c_len(mem@)),
            n <= c_len(mem@),
        decreases c_len(mem@) - n,
    {
        n = n + 1;
    }
    n
}

/// Tells whether `v` holds a terminator.
pub fn contains_nul(v: &[u8]) -> (found: bool)
    ensures
        found == has_nul(v@),
{
    let mut i: usize = 0;
    while i < v.len()
        invariant
            i <= v@.len(),
            forall|j: int| 0 <= j < i ==> v@[j] != NUL,
        decreases v@.len() - i,
    {
        if v[i] == NUL {
            return true;
        }
        i = i + 1;
    }
    false
}

/// Tells whether the run `mem` stored at `ptr` is a C string.
pub fn valid_c_run(ptr: usize, mem: &[u8]) -> (ok: bool)
    ensures
        ok == is_c_run(ptr, mem@),
{
    ptr != 0 && mem.len() <= usize::MAX - ptr && contains_nul(mem)
}

/// Tells whether the run `mem` stored at `ptr` is a C string of `len` bytes.
pub fn valid_c_run_of_len(ptr: usize, mem: &[u8], len: usize) -> (ok: bool)
    ensures
        ok == is_c_run_of_len(ptr, mem@, len),
{
    ptr != 0 && mem.len() <= usize::MAX - ptr && len < mem.len() && mem[len] == NUL
}

} // verus!
