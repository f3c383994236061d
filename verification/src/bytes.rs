//! ASCII helpers over byte strings. URLs, hosts and domains are handled as
//! bytes: domain matching is defined on ASCII and is case-insensitive, so
//! every comparison goes through ASCII lowercasing.

use vstd::prelude::*;

verus! {

/// `'A'`
pub const UPPER_A: u8 = 65;
/// `'Z'`
pub const UPPER_Z: u8 = 90;
/// Distance from an ASCII upper-case letter to its lower-case form.
pub const CASE_GAP: u8 = 32;

/// Lowercases one ASCII byte; all other bytes pass through unchanged.
pub open spec fn byte_lower(b: u8) -> u8 {
    if UPPER_A <= b && b <= UPPER_Z {
        (b + CASE_GAP) as u8
    } else {
        b
    }
}

/// Lowercases every ASCII byte of a byte string.
pub open spec fn seq_lower(s: Seq<u8>) -> Seq<u8> {
    s.map_values(|b: u8| byte_lower(b))
}

/// Executable ASCII lowercasing of a byte string.
pub fn lower_bytes(s: &[u8]) -> (r: Vec<u8>)
    ensures
        r@ == seq_lower(s@),
{
    let mut r: Vec<u8> = Vec::new();
    let mut i: usize = 0;
    while i < s.len()
        invariant
            i <= s.len(),
            r@ == seq_lower(s@.subrange(0, i as int)),
        decreases s.len() - i,
    {
        let b = s[i];
        if UPPER_A <= b && b <= UPPER_Z {
            r.push(b + CASE_GAP);
        } else {
            r.push(b);
        }
        i = i + 1;
        proof {
            assert(s@.subrange(0, i as int).drop_last() =~= s@.subrange(0, i - 1));
            assert(seq_lower(s@.subrange(0, i as int)) =~= r@);
        }
    }
    proof {
        assert(s@.subrange(0, s@.len() as int) =~= s@);
    }
    r
}

/// True when `a` and `b` hold the same bytes.
pub fn bytes_eq(a: &[u8], b: &[u8]) -> (r: bool)
    ensures
        r == (a@ == b@),
{
    if a.len() != b.len() {
        proof {
            assert(a@ != b@);
        }
        return false;
    }
    let mut i: usize = 0;
    while i < a.len()
        invariant
            i <= a.len(),
            a.len() == b.len(),
            forall|j: int| 0 <= j < i ==> a@[j] == b@[j],
        decreases a.len() - i,
    {
        if a[i] != b[i] {
            return false;
        }
        i = i + 1;
    }
    proof {
        assert(a@ =~= b@);
    }
    true
}

} // verus!
