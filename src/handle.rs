use vstd::prelude::*;
use crate::error::DaosError;
use crate::oid::DaosObjectId;

verus! {

/// An opaque native handle (pool, container, object, transaction or queue).
#[derive(Clone, Copy, Debug, PartialEq, Eq, Structural, Hash)]
pub struct DaosHandle {
    pub cookie: u64,
}

/// The transaction handle that stands for "no transaction".
pub fn txn_none_handle() -> (r: DaosHandle)
    ensures
        r.cookie == 0,
{
    DaosHandle { cookie: 0 }
}

/// Records the result of a native call that opens something: the handle on
/// success, the native code otherwise.
pub fn opened_handle(ret: i32, handle: DaosHandle) -> (r: Result<DaosHandle, DaosError>)
    ensures
        ret == 0 ==> r == Ok::<DaosHandle, DaosError>(handle),
        ret != 0 ==> r == Err::<DaosHandle, DaosError>(DaosError::Native(ret)),
{
    if ret == 0 {
        Ok(handle)
    } else {
        Err(DaosError::Native(ret))
    }
}

/// The record that a fetch brought back: the first `size` bytes of the buffer
/// it was read into, `size` being the record's stored size. A record larger
/// than the buffer did not fit.
pub fn fetched_record(buf: Vec<u8>, size: u64) -> (r: Result<Vec<u8>, DaosError>)
    ensures
        size <= buf@.len() ==> r is Ok && r->Ok_0@ == buf@.subrange(0, size as int),
        size > buf@.len() ==> r == Err::<Vec<u8>, DaosError>(DaosError::RecordTooLarge),
{
    if size > buf.len() as u64 {
        return Err(DaosError::RecordTooLarge);
    }
    let mut out = buf;
    out.truncate(size as usize);
    Ok(out)
}

/// A storage pool, known by its label, and its handle while connected.
#[derive(Debug)]
pub struct DaosPool {
    pub label: String,
    pub handle: Option<DaosHandle>,
}

impl DaosPool {
    /// A pool that is not connected yet.
    pub fn new(label: &str) -> (r: DaosPool)
        ensures
            r.label@ == label@,
            r.handle is None,
    {
        DaosPool { label: label.to_owned(), handle: None }
    }

    pub fn get_handle(&self) -> (r: Option<DaosHandle>)
        ensures
            r == self.handle,
    {
        self.handle
    }

    /// Records the result `ret` of the native connect that produced `handle`.
    /// A connected pool stays as it is.
    pub fn connected(&mut self, ret: i32, handle: DaosHandle) -> (r: Result<(), DaosError>)
        ensures
            final(self).label == old(self).label,
            old(self).handle is Some ==> r is Ok && final(self).handle == old(self).handle,
            old(self).handle is None && ret == 0 ==> r is Ok && final(self).handle == Some(handle),
            old(self).handle is None && ret != 0 ==> r == Err::<(), DaosError>(DaosError::Native(ret))
                && final(self).handle is None,
    {
        if self.handle.is_some() {
            return Ok(());
        }
        match opened_handle(ret, handle) {
            Ok(h) => {
                self.handle = Some(h);
                Ok(())
            },
            Err(e) => Err(e),
        }
    }

    /// Records the result `ret` of the native disconnect; the handle is
    /// dropped only when it succeeded.
    pub fn disconnected(&mut self, ret: i32) -> (r: Result<(), DaosError>)
        ensures
            final(self).label == old(self).label,
            ret == 0 ==> r is Ok && final(self).handle is None,
            ret != 0 ==> r == Err::<(), DaosError>(DaosError::Native(ret)) && final(self).handle
                == old(self).handle,
    {
        if ret != 0 {
            return Err(DaosError::Native(ret));
        }
        self.handle = None;
        Ok(())
    }
}

/// An opened object, with the queue its asynchronous operations complete on.
#[derive(Debug)]
pub struct DaosObject {
    pub oid: DaosObjectId,
    pub handle: Option<DaosHandle>,
    pub event_que: Option<DaosHandle>,
}

/// The handles that an asynchronous object operation is issued with.
#[derive(Clone, Copy, Debug, PartialEq, Eq, Structural)]
pub struct IoTarget {
    pub object: DaosHandle,
    pub queue: DaosHandle,
    pub txn: DaosHandle,
}

impl DaosObject {
    pub fn new(id: DaosObjectId, hdl: DaosHandle, evt_que: Option<DaosHandle>) -> (r: DaosObject)
        ensures
            r.oid == id,
            r.handle == Some(hdl),
            r.event_que == evt_que,
    {
        DaosObject { oid: id, handle: Some(hdl), event_que: evt_que }
    }

    pub fn get_handle(&self) -> (r: Option<DaosHandle>)
        ensures
            r == self.handle,
    {
        self.handle
    }

    pub fn get_event_queue(&self) -> (r: Option<DaosHandle>)
        ensures
            r == self.event_que,
    {
        self.event_que
    }

    /// The handles for an asynchronous operation on the object inside `txn`
    /// (outside any transaction when `txn` holds none). It needs the event
    /// queue and an open object.
    pub fn io_target(&self, txn: &DaosTxn) -> (r: Result<IoTarget, DaosError>)
        ensures
            (self.event_que is None || self.handle is None) <==> r is Err,
            r is Err ==> r->Err_0 == DaosError::MissingHandle,
            r is Ok ==> r->Ok_0.object == self.handle->0 && r->Ok_0.queue == self.event_que->0 && (txn.handle
                is Some ==> r->Ok_0.txn == txn.handle->0) && (txn.handle is None ==> r->Ok_0.txn.cookie == 0),
    {
        match (self.event_que, self.handle) {
            (Some(queue), Some(object)) => {
                let t = match txn.handle {
                    Some(h) => h,
                    None => txn_none_handle(),
                };
                Ok(IoTarget { object, queue, txn: t })
            },
            _ => Err(DaosError::MissingHandle),
        }
    }

    /// Records the result `ret` of the native close; the handle is dropped
    /// only when it succeeded.
    pub fn closed(&mut self, ret: i32) -> (r: Result<(), DaosError>)
        ensures
            final(self).oid == old(self).oid,
            final(self).event_que == old(self).event_que,
            ret == 0 ==> r is Ok && final(self).handle is None,
            ret != 0 ==> r == Err::<(), DaosError>(DaosError::Native(ret)) && final(self).handle
                == old(self).handle,
    {
        if ret != 0 {
            return Err(DaosError::Native(ret));
        }
        self.handle = None;
        Ok(())
    }
}

/// A transaction, or none: the handle is absent for writes outside any transaction.
#[derive(Debug)]
pub struct DaosTxn {
    pub handle: Option<DaosHandle>,
    pub event_que: Option<DaosHandle>,
}

impl DaosTxn {
    /// Stands for "no transaction".
    pub fn txn_none() -> (r: DaosTxn)
        ensures
            r.handle is None,
            r.event_que is None,
    {
        DaosTxn { handle: None, event_que: None }
    }

    /// A transaction opened as `handle`, completing on the queue `eq`.
    pub fn opened(handle: DaosHandle, eq: Option<DaosHandle>) -> (r: DaosTxn)
        ensures
            r.handle == Some(handle),
            r.event_que == eq,
    {
        DaosTxn { handle: Some(handle), event_que: eq }
    }

    pub fn get_handle(&self) -> (r: Option<DaosHandle>)
        ensures
            r == self.handle,
    {
        self.handle
    }

    /// The transaction and queue handles that commit, abort and close are
    /// issued with; both must be present.
    pub fn op_target(&self) -> (r: Result<(DaosHandle, DaosHandle), DaosError>)
        ensures
            (self.handle is None || self.event_que is None) <==> r is Err,
            r is Err ==> r->Err_0 == DaosError::MissingHandle,
            r is Ok ==> r->Ok_0 == (self.handle->0, self.event_que->0),
    {
        match (self.handle, self.event_que) {
            (Some(t), Some(q)) => Ok((t, q)),
            _ => Err(DaosError::MissingHandle),
        }
    }
}

} // verus!
