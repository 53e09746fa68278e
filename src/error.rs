use vstd::prelude::*;

verus! {

/// The failures that the library reports.
#[derive(Clone, Copy, Debug, PartialEq, Eq, Structural)]
pub enum DaosError {
    /// A native call returned the given nonzero code.
    Native(i32),
    /// A handle that the operation needs is missing (not connected, not opened, no queue).
    MissingHandle,
    /// The waiting side stopped listening before the operation completed
    /// (a connection-reset style failure, distinct from a native failure).
    Cancelled,
    /// The reserved bits of the next identifier are set: the id space is used up for good.
    Exhausted,
    /// The persisted cursor record does not hold exactly sixteen bytes.
    CorruptCursor,
    /// A stored record is larger than the buffer that was offered for it.
    RecordTooLarge,
    /// A completion callback was registered twice on one event, or fired with none armed.
    ProtocolViolation,
    /// An index or offset lies outside the listed keys.
    OutOfRange,
}

} // verus!
