use vstd::prelude::*;
use vstd::slice::slice_subrange;
use crate::error::DaosError;

verus! {

/// Most key descriptors that one listing call fills.
pub const MAX_KEY_DESCS: u32 = 128;

/// Size of the buffer that receives the listed keys back to back.
pub const KEY_BUF_SIZE: usize = 1024;

/// Size of the opaque part of an iteration anchor.
pub const DAOS_ANCHOR_BUF_MAX: usize = 104;

/// Anchor type of an iteration that has reached its end.
pub const DAOS_ANCHOR_TYPE_EOF: u16 = 3;

/// Where a key iteration stands, as the native layer reports it.
#[derive(Debug)]
pub struct DaosAnchor {
    pub da_type: u16,
    pub da_shard: u16,
    pub da_flags: u32,
    pub da_sub_anchors: u64,
    pub da_buf: Vec<u8>,
}

/// The length and value type of one listed key.
#[derive(Clone, Copy, Debug, PartialEq, Eq, Structural)]
pub struct DaosKeyDesc {
    pub kd_key_len: u64,
    pub kd_val_type: u32,
}

/// Whether the iteration that `anchor` tracks is over.
pub fn daos_anchor_is_eof(anchor: &DaosAnchor) -> (r: bool)
    ensures
        r == (anchor.da_type == DAOS_ANCHOR_TYPE_EOF),
{
    anchor.da_type == DAOS_ANCHOR_TYPE_EOF
}

/// One batch of listed keys: `ndesc` descriptors, whose keys lie back to back
/// in `out_buf`, and the anchor to continue from.
#[derive(Debug)]
pub struct DaosKeyList {
    pub anchor: DaosAnchor,
    pub ndesc: u32,
    pub key_descs: Vec<DaosKeyDesc>,
    pub out_buf: Vec<u8>,
}

/// Where the key that starts at `start` and is described by descriptor `idx` ends.
pub open spec fn key_end(l: &DaosKeyList, start: u32, idx: u32) -> int {
    start as int + l.key_descs@[idx as int].kd_key_len as int
}

/// Whether descriptor `idx`, with its key starting at `start`, can be read.
pub open spec fn key_readable(l: &DaosKeyList, start: u32, idx: u32) -> bool {
    &&& idx < l.ndesc
    &&& idx < l.key_descs@.len()
    &&& key_end(l, start, idx) <= l.out_buf@.len()
    &&& key_end(l, start, idx) <= u32::MAX
}

impl DaosKeyList {
    /// An empty list at the start of an iteration, with room for a full batch.
    pub fn new() -> (r: Box<DaosKeyList>)
        ensures
            r.ndesc == 0,
            r.anchor.da_type == 0,
            r.anchor.da_shard == 0,
            r.anchor.da_flags == 0,
            r.anchor.da_sub_anchors == 0,
            r.anchor.da_buf@.len() == DAOS_ANCHOR_BUF_MAX,
            forall|i: int| 0 <= i < r.anchor.da_buf@.len() ==> r.anchor.da_buf@[i] == 0,
            r.key_descs@.len() == MAX_KEY_DESCS,
            r.out_buf@.len() == KEY_BUF_SIZE,
            forall|i: int| 0 <= i < r.key_descs@.len() ==> r.key_descs@[i] == (DaosKeyDesc { kd_key_len: 0, kd_val_type: 0 }),
            forall|i: int| 0 <= i < r.out_buf@.len() ==> r.out_buf@[i] == 0,
    {
        let anchor = DaosAnchor {
            da_type: 0,
            da_shard: 0,
            da_flags: 0,
            da_sub_anchors: 0,
            da_buf: vec![0u8; DAOS_ANCHOR_BUF_MAX],
        };
        let key_descs = vec![DaosKeyDesc { kd_key_len: 0, kd_val_type: 0 }; MAX_KEY_DESCS as usize];
        Box::new(DaosKeyList { anchor, ndesc: 0, key_descs, out_buf: vec![0u8; KEY_BUF_SIZE] })
    }

    /// Asks for a full batch of descriptors in the next listing call.
    pub fn prepare_next_query(&mut self)
        ensures
            final(self).ndesc == MAX_KEY_DESCS,
            final(self).key_descs == old(self).key_descs,
            final(self).out_buf == old(self).out_buf,
            final(self).anchor == old(self).anchor,
    {
        self.ndesc = MAX_KEY_DESCS;
    }

    /// Number of keys in the batch.
    pub fn get_key_num(&self) -> (r: u32)
        ensures
            r == self.ndesc,
    {
        self.ndesc
    }

    /// Whether the iteration is over.
    pub fn reach_end(&self) -> (r: bool)
        ensures
            r == (self.anchor.da_type == DAOS_ANCHOR_TYPE_EOF),
    {
        daos_anchor_is_eof(&self.anchor)
    }

    /// Gets ready for the next listing call: an iteration that is over yields
    /// an empty batch and needs no call (`false`); otherwise a full batch is
    /// asked for (`true`).
    pub fn begin_listing(&mut self) -> (r: bool)
        ensures
            r == (old(self).anchor.da_type != DAOS_ANCHOR_TYPE_EOF),
            !r ==> final(self).ndesc == 0,
            r ==> final(self).ndesc == MAX_KEY_DESCS,
            final(self).key_descs == old(self).key_descs,
            final(self).out_buf == old(self).out_buf,
            final(self).anchor == old(self).anchor,
    {
        if self.reach_end() {
            self.ndesc = 0;
            false
        } else {
            self.prepare_next_query();
            true
        }
    }

    /// The key described by descriptor `idx`, which starts at offset `start`
    /// of the buffer, and the position of the next key. Start from `(0, 0)`.
    pub fn get_key(&self, start_and_idx: (u32, u32)) -> (r: Result<(&[u8], (u32, u32)), DaosError>)
        ensures
            !key_readable(self, start_and_idx.0, start_and_idx.1) <==> r is Err,
            r is Err ==> r->Err_0 == DaosError::OutOfRange,
            r is Ok ==> r->Ok_0.0@ == self.out_buf@.subrange(
                start_and_idx.0 as int,
                key_end(self, start_and_idx.0, start_and_idx.1),
            ) && r->Ok_0.1 == (key_end(self, start_and_idx.0, start_and_idx.1) as u32, (start_and_idx.1 + 1) as u32),
    {
        let (start, idx) = start_and_idx;
        if idx >= self.ndesc || idx as usize >= self.key_descs.len() {
            return Err(DaosError::OutOfRange);
        }
        let len = self.key_descs[idx as usize].kd_key_len;
        if len > self.out_buf.len() as u64 || start as u64 > self.out_buf.len() as u64 - len {
            return Err(DaosError::OutOfRange);
        }
        let end = start as u64 + len;
        if end > u32::MAX as u64 {
            return Err(DaosError::OutOfRange);
        }
        let key = slice_subrange(self.out_buf.as_slice(), start as usize, end as usize);
        Ok((key, (end as u32, idx + 1)))
    }
}

} // verus!
