use vstd::prelude::*;
use crate::error::DaosError;
use crate::oid::{encode_oid, id_of, reserved_bits_clear, DaosObjectId};

verus! {

/// Number of ids that one claim reserves from the shared cursor.
pub const OID_BATCH_SIZE: u128 = 1024;

/// Value the cursor is taken to hold before any allocator has written it.
pub const OID_BATCH_CURSOR_START: u128 = 1024;

/// A reservation `[start, end)`: `start` is the next id to hand out, `end` is
/// the exclusive bound of the claimed batch.
#[derive(Clone, Copy, Debug, PartialEq, Eq, Structural)]
pub struct OidRange {
    pub start: u128,
    pub end: u128,
}

impl OidRange {
    pub open spec fn wf(&self) -> bool {
        self.start <= self.end
    }

    pub open spec fn is_empty_spec(&self) -> bool {
        self.start >= self.end
    }

    /// Whether the value `v` lies in the reservation.
    pub open spec fn contains(&self, v: int) -> bool {
        self.start <= v < self.end
    }

    pub open spec fn empty_spec() -> OidRange {
        OidRange { start: 0, end: 0 }
    }

    /// The reservation that holds nothing yet.
    pub fn empty() -> (r: OidRange)
        ensures
            r == OidRange::empty_spec(),
    {
        OidRange { start: 0, end: 0 }
    }

    /// The batch that a claim starting at `start` reserves.
    pub fn batch(start: u128) -> (r: OidRange)
        requires
            start as int + OID_BATCH_SIZE as int <= u128::MAX as int,
        ensures
            r == (OidRange { start: start, end: (start + OID_BATCH_SIZE) as u128 }),
            r.wf(),
            !r.is_empty_spec(),
    {
        OidRange { start, end: start + OID_BATCH_SIZE }
    }

    pub fn is_empty(&self) -> (r: bool)
        ensures
            r == self.is_empty_spec(),
    {
        self.start >= self.end
    }
}

/// The outcome of trying to serve an id from the local reservation alone.
#[derive(Clone, Copy, Debug, PartialEq, Eq, Structural)]
pub enum FastPath {
    /// An id was handed out.
    Issued(DaosObjectId),
    /// The reservation is used up: a batch must be claimed first.
    NeedsRefill,
    /// The next value has reserved bits set.
    Failed(DaosError),
}

/// The in-memory part of an allocator instance: the reservation it draws from.
#[derive(Debug)]
pub struct RangeAllocator {
    pub range: OidRange,
}

impl RangeAllocator {
    pub open spec fn wf(&self) -> bool {
        self.range.wf()
    }

    /// An allocator that has not claimed anything yet.
    pub fn new() -> (r: RangeAllocator)
        ensures
            r.range == OidRange::empty_spec(),
            r.wf(),
    {
        RangeAllocator { range: OidRange::empty() }
    }

    /// Serves the next id from the reservation, without any storage access.
    pub fn try_fast_path(&mut self) -> (r: FastPath)
        requires
            old(self).wf(),
        ensures
            final(self).wf(),
            old(self).range.is_empty_spec() ==> r == FastPath::NeedsRefill && *final(self) == *old(self),
            !old(self).range.is_empty_spec() && !reserved_bits_clear(old(self).range.start as int) ==> r
                == FastPath::Failed(DaosError::Exhausted) && *final(self) == *old(self),
            !old(self).range.is_empty_spec() && reserved_bits_clear(old(self).range.start as int) ==> r
                == FastPath::Issued(id_of(old(self).range.start)) && final(self).range == (OidRange {
                start: (old(self).range.start + 1) as u128,
                end: old(self).range.end,
            }),
    {
        if self.range.start >= self.range.end {
            return FastPath::NeedsRefill;
        }
        match encode_oid(self.range.start) {
            Ok(id) => {
                self.range.start = self.range.start + 1;
                FastPath::Issued(id)
            },
            Err(e) => FastPath::Failed(e),
        }
    }

    /// Installs a freshly claimed batch and serves the first id from it.
    pub fn refill_and_take(&mut self, batch: OidRange) -> (r: Result<DaosObjectId, DaosError>)
        requires
            batch.wf(),
            !batch.is_empty_spec(),
        ensures
            final(self).wf(),
            reserved_bits_clear(batch.start as int) ==> r == Ok::<DaosObjectId, DaosError>(id_of(batch.start))
                && final(self).range == (OidRange { start: (batch.start + 1) as u128, end: batch.end }),
            !reserved_bits_clear(batch.start as int) ==> r == Err::<DaosObjectId, DaosError>(DaosError::Exhausted)
                && final(self).range == batch,
    {
        self.range = batch;
        match self.try_fast_path() {
            FastPath::Issued(id) => Ok(id),
            FastPath::Failed(e) => Err(e),
            FastPath::NeedsRefill => unreached(),
        }
    }
}

} // verus!
