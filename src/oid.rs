use vstd::prelude::*;
use crate::error::DaosError;

verus! {

/// Number of high-order bits of an identifier that the object format reserves.
pub const OID_FMT_INTR_BITS: u32 = 32;

/// First value of the id space that has a reserved bit set: `2^(128 - OID_FMT_INTR_BITS)`.
pub const OID_SPACE_END: u128 = 0x1_0000_0000_0000_0000_0000_0000;

/// `2^64`, the weight of the high word of an identifier.
pub const WORD: u128 = 0x1_0000_0000_0000_0000;

/// A 128-bit object identifier, as a low and a high 64-bit word.
#[derive(Clone, Copy, Debug, PartialEq, Eq, Structural, Hash)]
pub struct DaosObjectId {
    pub lo: u64,
    pub hi: u64,
}

/// The counter value that an identifier stands for.
pub open spec fn id_value(id: DaosObjectId) -> int {
    id.hi as int * WORD as int + id.lo as int
}

/// The identifier of a counter value: its high 64 bits and its low 64 bits.
pub open spec fn id_of(v: u128) -> DaosObjectId {
    DaosObjectId { hi: (v as int / WORD as int) as u64, lo: (v as int % WORD as int) as u64 }
}

/// Whether the reserved high bits of a counter value are all zero.
pub open spec fn reserved_bits_clear(v: int) -> bool {
    v < OID_SPACE_END as int
}

/// Splitting a value into its two words loses nothing.
pub proof fn lemma_id_value_of(v: u128)
    ensures
        id_value(id_of(v)) == v as int,
{
    let q = v as int / WORD as int;
    let r = v as int % WORD as int;
    assert(0 <= q < WORD as int) by (nonlinear_arith)
        requires q == v as int / WORD as int, 0 <= v as int <= u128::MAX as int, WORD as int == 0x1_0000_0000_0000_0000int;
    assert(0 <= r < WORD as int);
    assert(q * WORD as int + r == v as int) by (nonlinear_arith)
        requires q == v as int / WORD as int, r == v as int % WORD as int, WORD as int > 0;
}

/// Distinct counter values give distinct identifiers.
pub proof fn lemma_id_of_injective(a: u128, b: u128)
    ensures
        id_of(a) == id_of(b) <==> a == b,
{
    lemma_id_value_of(a);
    lemma_id_value_of(b);
}

/// Encodes the counter value `v` as an identifier, refusing a value whose
/// reserved bits are set.
pub fn encode_oid(v: u128) -> (r: Result<DaosObjectId, DaosError>)
    ensures
        reserved_bits_clear(v as int) ==> r == Ok::<DaosObjectId, DaosError>(id_of(v)),
        !reserved_bits_clear(v as int) ==> r == Err::<DaosObjectId, DaosError>(DaosError::Exhausted),
{
    if v >= OID_SPACE_END {
        return Err(DaosError::Exhausted);
    }
    proof {
        lemma_id_value_of(v);
    }
    let hi = v / WORD;
    let lo = v % WORD;
    Ok(DaosObjectId { hi: hi as u64, lo: lo as u64 })
}

} // verus!
