//! Batched object-id allocation over a shared, transactional cursor record,
//! together with the lifecycle logic of completion events and their queue.
//!
//! - `oid`, `range`: identifiers, the reserved-bit limit, and the local reservation.
//! - `codec`: the sixteen-byte little-endian cursor record.
//! - `claim`: the batch-claim protocol as a state machine over storage actions.
//! - `memstore`: an in-process cursor record with the storage service's
//!   conditional-write semantics, and allocation against it.
//! - `completion`, `event`, `queue`: continuations, completion events and the
//!   teardown of a completion queue.
//! - `handle`, `keylist`: pool, object and transaction handles, and key listings.

pub mod claim;
pub mod codec;
pub mod completion;
pub mod error;
pub mod event;
pub mod handle;
pub mod keylist;
pub mod memstore;
pub mod oid;
pub mod queue;
pub mod race;
pub mod range;
