use vstd::prelude::*;

verus! {

/// Width in bytes of the persisted cursor record.
pub const CURSOR_BYTES: usize = 16;

/// `256^n`.
pub open spec fn pow256(n: nat) -> nat
    decreases n,
{
    if n == 0 {
        1
    } else {
        256 * pow256((n - 1) as nat)
    }
}

/// The number that a little-endian byte string stands for.
pub open spec fn le_value(s: Seq<u8>) -> nat
    decreases s.len(),
{
    if s.len() == 0 {
        0
    } else {
        le_value(s.drop_last()) + pow256((s.len() - 1) as nat) * s.last() as nat
    }
}

proof fn lemma_pow256_positive(n: nat)
    ensures
        pow256(n) > 0,
    decreases n,
{
    if n > 0 {
        lemma_pow256_positive((n - 1) as nat);
    }
}

proof fn lemma_pow256_16()
    ensures
        pow256(16) == u128::MAX as nat + 1,
{
    reveal_with_fuel(pow256, 17);
}

/// A byte string of length `n` stands for a number below `256^n`.
proof fn lemma_le_value_bound(s: Seq<u8>)
    ensures
        le_value(s) < pow256(s.len()),
    decreases s.len(),
{
    if s.len() > 0 {
        let n = (s.len() - 1) as nat;
        lemma_le_value_bound(s.drop_last());
        let a = le_value(s.drop_last());
        let p = pow256(n);
        let b = s.last() as nat;
        assert(a + p * b < 256 * p) by (nonlinear_arith)
            requires a < p, b <= 255;
    }
}

/// The sixteen-byte little-endian form of `v`.
pub fn encode_cursor(v: u128) -> (r: Vec<u8>)
    ensures
        r@.len() == CURSOR_BYTES,
        le_value(r@) == v as nat,
{
    let mut out: Vec<u8> = Vec::new();
    let mut rest: u128 = v;
    let mut i: usize = 0;
    proof {
        assert(pow256(0) == 1);
        assert(le_value(out@) == 0);
    }
    while i < CURSOR_BYTES
        invariant
            i <= CURSOR_BYTES,
            out@.len() == i,
            le_value(out@) + pow256(i as nat) * rest as nat == v as nat,
        decreases CURSOR_BYTES - i,
    {
        let byte = (rest % 256) as u8;
        let next = rest / 256;
        proof {
            let p = pow256(i as nat);
            assert(out@.push(byte).drop_last() == out@);
            assert(le_value(out@.push(byte)) == le_value(out@) + p * byte as nat);
            assert(rest as nat == 256 * next as nat + byte as nat);
            assert(p * rest as nat == p * byte as nat + (256 * p) * next as nat) by (nonlinear_arith)
                requires rest as nat == 256 * next as nat + byte as nat;
        }
        out.push(byte);
        rest = next;
        i = i + 1;
    }
    proof {
        lemma_pow256_16();
        if rest > 0 {
            assert(pow256(16) * rest as nat >= pow256(16)) by (nonlinear_arith)
                requires rest > 0;
        }
    }
    out
}

/// Reads a cursor record: the number its sixteen little-endian bytes stand
/// for, or `None` when it does not hold exactly sixteen bytes.
pub fn decode_cursor(b: &[u8]) -> (r: Option<u128>)
    ensures
        b@.len() != CURSOR_BYTES ==> r is None,
        b@.len() == CURSOR_BYTES ==> r == Some(le_value(b@) as u128) && le_value(b@) <= u128::MAX,
{
    if b.len() != CURSOR_BYTES {
        return None;
    }
    let mut acc: u128 = 0;
    let mut weight: u128 = 1;
    let mut i: usize = 0;
    proof {
        assert(b@.subrange(0, 0) =~= Seq::<u8>::empty());
    }
    while i < CURSOR_BYTES
        invariant
            i <= CURSOR_BYTES,
            b@.len() == CURSOR_BYTES,
            acc as nat == le_value(b@.subrange(0, i as int)),
            i < CURSOR_BYTES ==> weight as nat == pow256(i as nat),
        decreases CURSOR_BYTES - i,
    {
        let byte = b[i];
        proof {
            let s = b@.subrange(0, i as int + 1);
            assert(s.drop_last() =~= b@.subrange(0, i as int));
            assert(s.last() == byte);
            lemma_le_value_bound(s);
            lemma_pow256_16();
            assert(pow256(s.len()) <= pow256(16)) by {
                lemma_pow256_monotone(s.len(), 16);
            }
        }
        acc = acc + weight * (byte as u128);
        if i + 1 < CURSOR_BYTES {
            proof {
                lemma_pow256_monotone((i + 1) as nat, 15);
                assert(pow256(15) < pow256(16)) by {
                    lemma_pow256_positive(15);
                }
                lemma_pow256_16();
            }
            weight = weight * 256;
        }
        i = i + 1;
    }
    proof {
        assert(b@.subrange(0, 16) =~= b@);
        lemma_le_value_bound(b@);
        lemma_pow256_16();
    }
    Some(acc)
}

proof fn lemma_pow256_monotone(a: nat, b: nat)
    requires
        a <= b,
    ensures
        pow256(a) <= pow256(b),
    decreases b,
{
    if a < b {
        lemma_pow256_monotone(a, (b - 1) as nat);
        lemma_pow256_positive((b - 1) as nat);
    }
}

} // verus!
