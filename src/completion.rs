use vstd::prelude::*;
use tokio::sync::oneshot::{Receiver, Sender};
use crate::error::DaosError;

verus! {

#[verifier::external_type_specification]
#[verifier::external_body]
#[verifier::reject_recursive_types(T)]
pub struct ExSender<T>(tokio::sync::oneshot::Sender<T>);

#[verifier::external_type_specification]
#[verifier::external_body]
#[verifier::reject_recursive_types(T)]
pub struct ExReceiver<T>(tokio::sync::oneshot::Receiver<T>);

#[verifier::external_type_specification]
#[verifier::external_body]
pub struct ExRecvError(tokio::sync::oneshot::error::RecvError);

/// Relies on tokio's `oneshot::channel`: a fresh pair of connected halves.
pub assume_specification<T>[ tokio::sync::oneshot::channel::<T> ]() -> (Sender<T>, Receiver<T>);

/// Relies on tokio's `oneshot::Sender::send`: when the receiving half is gone
/// the value comes back unchanged in `Err`.
pub assume_specification<T>[ tokio::sync::oneshot::Sender::<T>::send ](tx: Sender<T>, t: T) -> (r: Result<(), T>)
    ensures
        r is Err ==> r->Err_0 == t,
;

/// Tag stored in every continuation record, to recognise it when it comes back
/// from the native layer.
pub const CALLBACK_MAGIC: u32 = 0x1caffe1d;

/// What became of a completion code handed to a continuation.
#[derive(Clone, Copy, Debug, PartialEq, Eq, Structural)]
pub enum Delivery {
    /// The waiter received the code.
    Delivered,
    /// The waiter had stopped listening; the code was dropped.
    WaiterGone,
    /// No continuation was armed: a protocol violation, treated as a disconnect.
    NotArmed,
}

impl Delivery {
    /// The status that the native completion callback returns: zero only when
    /// the code reached its waiter.
    pub fn status(self) -> (r: i32)
        ensures
            self == Delivery::Delivered ==> r == 0,
            self != Delivery::Delivered ==> r == -1,
    {
        match self {
            Delivery::Delivered => 0,
            _ => -1,
        }
    }
}

/// Classifies the result of sending a completion code to its waiter.
pub fn delivery_of(sent: Result<(), i32>) -> (r: Delivery)
    ensures
        sent is Ok <==> r == Delivery::Delivered,
        sent is Err <==> r == Delivery::WaiterGone,
{
    match sent {
        Ok(()) => Delivery::Delivered,
        Err(_) => Delivery::WaiterGone,
    }
}

/// The continuation that a completion callback fires: the sending half of a
/// one-shot channel, present until it is fired.
#[derive(Debug)]
pub struct CallbackArg {
    magic: u32,
    tx: Option<Sender<i32>>,
}

impl CallbackArg {
    /// Whether the continuation can still be fired.
    pub closed spec fn armed_spec(&self) -> bool {
        self.tx is Some
    }

    /// The tag the record carries.
    pub closed spec fn tag(&self) -> u32 {
        self.magic
    }

    pub fn magic(&self) -> (r: u32)
        ensures
            r == self.tag(),
    {
        self.magic
    }

    /// A continuation armed with the sending half `tx`.
    pub fn new(tx: Sender<i32>) -> (r: CallbackArg)
        ensures
            r.armed_spec(),
            r.tag() == CALLBACK_MAGIC,
    {
        CallbackArg { magic: CALLBACK_MAGIC, tx: Some(tx) }
    }

    pub fn is_armed(&self) -> (r: bool)
        ensures
            r == self.armed_spec(),
    {
        self.tx.is_some()
    }

    /// Fires the continuation with the native completion code. It fires at
    /// most once: afterwards it is disarmed, and firing again reports
    /// `NotArmed`. A waiter that stopped listening is no failure of the queue.
    pub fn fire(&mut self, code: i32) -> (r: Delivery)
        ensures
            !final(self).armed_spec(),
            final(self).tag() == old(self).tag(),
            !old(self).armed_spec() ==> r == Delivery::NotArmed,
            old(self).armed_spec() ==> r == Delivery::Delivered || r == Delivery::WaiterGone,
    {
        match self.tx.take() {
            Some(tx) => delivery_of(tx.send(code)),
            None => Delivery::NotArmed,
        }
    }
}

/// The result of an asynchronous native operation, from the code returned when
/// it was issued and the completion code its waiter received (`None` when the
/// continuation was dropped without an answer).
pub fn completion_result(issued: i32, delivered: Option<i32>) -> (r: Result<(), DaosError>)
    ensures
        issued != 0 ==> r == Err::<(), DaosError>(DaosError::Native(issued)),
        issued == 0 && delivered is None ==> r == Err::<(), DaosError>(DaosError::Cancelled),
        issued == 0 && delivered == Some(0i32) ==> r == Ok::<(), DaosError>(()),
        issued == 0 && delivered is Some && delivered->0 != 0 ==> r == Err::<(), DaosError>(
            DaosError::Native(delivered->0),
        ),
{
    if issued != 0 {
        return Err(DaosError::Native(issued));
    }
    match delivered {
        None => Err(DaosError::Cancelled),
        Some(0) => Ok(()),
        Some(c) => Err(DaosError::Native(c)),
    }
}

} // verus!
