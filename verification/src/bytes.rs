//! Byte-string helpers: decimal rendering of integers and facts about it.

use vstd::prelude::*;

verus! {

/// Decimal digits of `n`, most significant first, as ASCII bytes.
pub open spec fn dec_digits(n: nat) -> Seq<u8>
    decreases n,
{
    if n < 10 {
        seq![(0x30 + n) as u8]
    } else {
        dec_digits(n / 10).push((0x30 + n % 10) as u8)
    }
}

/// Render `n` in decimal, e.g. `1700000000` becomes the bytes `"1700000000"`.
pub fn u64_to_dec(n: u64) -> (v: Vec<u8>)
    ensures
        v@ == dec_digits(n as nat),
    decreases n,
{
    if n < 10 {
        let mut v: Vec<u8> = Vec::new();
        v.push(0x30u8 + n as u8);
        v
    } else {
        let mut v = u64_to_dec(n / 10);
        v.push(0x30u8 + (n % 10) as u8);
        v
    }
}

/// Byte-for-byte equality of two byte strings.
pub fn bytes_eq(a: &Vec<u8>, b: &Vec<u8>) -> (r: bool)
    ensures
        r == (a@ == b@),
{
    if a.len() != b.len() {
        assert(a@ != b@);
        return false;
    }
    let mut i: usize = 0;
    while i < a.len()
        invariant
            i <= a.len(),
            a.len() == b.len(),
            forall|k: int| 0 <= k < i ==> a@[k] == b@[k],
        decreases a.len() - i,
    {
        if a[i] != b[i] {
            return false;
        }
        i += 1;
    }
    proof {
        assert(a@ =~= b@);
    }
    true
}

/// A decimal rendering is never empty.
pub proof fn lemma_dec_digits_len(n: nat)
    ensures
        dec_digits(n).len() >= 1,
        n < 10 <==> dec_digits(n).len() == 1,
    decreases n,
{
    if n >= 10 {
        lemma_dec_digits_len(n / 10);
    }
}

/// Distinct numbers render to distinct decimal byte strings.
pub proof fn lemma_dec_digits_injective(a: nat, b: nat)
    requires
        a != b,
    ensures
        dec_digits(a) != dec_digits(b),
    decreases a + b,
{
    lemma_dec_digits_len(a);
    lemma_dec_digits_len(b);
    if a < 10 && b < 10 {
        assert(dec_digits(a)[0] != dec_digits(b)[0]);
    } else if a < 10 || b < 10 {
        // one rendering has a single digit, the other at least two
        assert(dec_digits(a).len() != dec_digits(b).len());
    } else {
        if a % 10 != b % 10 {
            assert(dec_digits(a).last() != dec_digits(b).last());
        } else {
            assert(a / 10 != b / 10);
            lemma_dec_digits_injective((a / 10) as nat, (b / 10) as nat);
            if dec_digits(a) == dec_digits(b) {
                assert(dec_digits(a).drop_last() =~= dec_digits(a / 10));
                assert(dec_digits(b).drop_last() =~= dec_digits(b / 10));
                assert(false);
            }
        }
    }
}

/// Two byte strings that share a suffix are equal exactly when their prefixes are.
pub proof fn lemma_append_same_suffix(a: Seq<u8>, b: Seq<u8>, t: Seq<u8>)
    requires
        a != b,
    ensures
        a + t != b + t,
{
    if a + t == b + t {
        assert((a + t).len() == (b + t).len());
        assert(a.len() == b.len());
        assert(a =~= (a + t).subrange(0, a.len() as int));
        assert(b =~= (b + t).subrange(0, b.len() as int));
        assert(false);
    }
}

} // verus!
