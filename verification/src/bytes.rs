//! Searching bytes for a pattern.

use vstd::prelude::*;

verus! {

/// Whether `pattern` stands in `bytes` at position `at`.
pub open spec fn occurs_at(bytes: Seq<u8>, pattern: Seq<u8>, at: int) -> bool {
    0 <= at && at + pattern.len() <= bytes.len() && bytes.subrange(at, at + pattern.len())
        == pattern
}

/// Whether `pattern` stands somewhere in `bytes`.
pub open spec fn mentions(bytes: Seq<u8>, pattern: Seq<u8>) -> bool {
    exists|at: int| occurs_at(bytes, pattern, at)
}

/// Whether `pattern` stands in `bytes` at position `at`.
pub fn occurs(bytes: &[u8], pattern: &[u8], at: usize) -> (found: bool)
    ensures
        found == occurs_at(bytes@, pattern@, at as int),
{
    if at > bytes.len() || pattern.len() > bytes.len() - at {
        return false;
    }
    let mut k: usize = 0;
    while k < pattern.len()
        invariant
            k <= pattern.len(),
            at + pattern.len() <= bytes.len(),
            forall|j: int| 0 <= j < k ==> bytes@[at + j] == pattern@[j],
        decreases pattern.len() - k,
    {
        if bytes[at + k] != pattern[k] {
            assert(bytes@.subrange(at as int, at + pattern.len())[k as int] != pattern@[k as int]);
            return false;
        }
        k += 1;
    }
    assert(bytes@.subrange(at as int, at + pattern.len()) =~= pattern@);
    true
}

/// Whether `pattern` stands somewhere in `bytes`.
pub fn contains(bytes: &[u8], pattern: &[u8]) -> (found: bool)
    ensures
        found == mentions(bytes@, pattern@),
{
    if pattern.len() > bytes.len() {
        return false;
    }
    let last: usize = bytes.len() - pattern.len();
    let mut at: usize = 0;
    loop
        invariant
            at <= last,
            last == bytes.len() - pattern.len(),
            pattern.len() <= bytes.len(),
            forall|i: int| 0 <= i < at ==> !occurs_at(bytes@, pattern@, i),
        decreases last - at,
    {
        if occurs(bytes, pattern, at) {
            return true;
        }
        if at == last {
            return false;
        }
        at += 1;
    }
}

} // verus!
