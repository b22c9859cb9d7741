//! The single-value result channel between a platform adapter and a waiting request.
//!
//! The receiving half is tokio's oneshot receiver; the producing half wraps
//! tokio's oneshot sender in a [`ResultProducer`], which accepts at most one
//! value: every send after the first is a no-op.

use vstd::prelude::*;
use tokio::sync::oneshot::{Receiver, Sender};
use crate::types::PermissionResult;

verus! {

#[verifier::external_type_specification]
#[verifier::external_body]
#[verifier::reject_recursive_types(T)]
pub struct ExOneshotSender<T>(Sender<T>);

#[verifier::external_type_specification]
#[verifier::external_body]
#[verifier::reject_recursive_types(T)]
pub struct ExOneshotReceiver<T>(Receiver<T>);

#[verifier::external_type_specification]
#[verifier::external_body]
pub struct ExRecvError(tokio::sync::oneshot::error::RecvError);

/// Relies on tokio::sync::oneshot::channel: a fresh, connected sender and receiver.
pub assume_specification<T>[ tokio::sync::oneshot::channel::<T> ]() -> (Sender<T>, Receiver<T>);

/// Relies on tokio::sync::oneshot::Sender::send: when the receiver is gone the
/// value comes back unchanged; whether it is gone depends on the other side.
pub assume_specification<T>[ Sender::<T>::send ](s: Sender<T>, t: T) -> (r: Result<(), T>)
    ensures
        r matches Err(v) ==> v == t,
;

/// Where a producer stands.
#[derive(Debug)]
pub enum ProducerState {
    /// Nothing has been sent yet and the producer can still deliver.
    Pending,
    /// This value was handed to a live receiver.
    Completed(PermissionResult),
    /// The producer gave up, or the receiver was gone when it sent.
    Abandoned,
}

/// One send of `value` on a producer in state `before`: the producer moves to
/// `after`, and `delivered` tells whether `value` reached the receiver.
/// A pending producer always leaves the pending state, completed with `value`
/// when it was delivered; any other producer ignores the send.
pub open spec fn send_step(
    before: ProducerState,
    after: ProducerState,
    delivered: bool,
    value: PermissionResult,
) -> bool {
    if before is Pending {
        after == (if delivered {
            ProducerState::Completed(value)
        } else {
            ProducerState::Abandoned
        })
    } else {
        after == before && !delivered
    }
}

/// What a producer holds: the sender while it can still deliver, and
/// afterwards the value it delivered.
enum Slot {
    Pending(Sender<PermissionResult>),
    Completed(Ghost<PermissionResult>),
    Abandoned,
}

/// The producing half of a result channel. It sends at most one value.
pub struct ResultProducer {
    slot: Slot,
}

impl View for ResultProducer {
    type V = ProducerState;

    closed spec fn view(&self) -> ProducerState {
        match self.slot {
            Slot::Pending(_) => ProducerState::Pending,
            Slot::Completed(v) => ProducerState::Completed(v@),
            Slot::Abandoned => ProducerState::Abandoned,
        }
    }
}

impl ResultProducer {
    /// Delivers `result` unless this producer has already completed or been
    /// abandoned; returns whether the value reached a live receiver.
    pub fn send(&mut self, result: PermissionResult) -> (delivered: bool)
        ensures
            send_step(old(self)@, final(self)@, delivered, result),
    {
        let ghost value = result;
        let mut current = Slot::Abandoned;
        std::mem::swap(&mut self.slot, &mut current);
        match current {
            Slot::Pending(tx) => {
                let delivered = tx.send(result).is_ok();
                if delivered {
                    self.slot = Slot::Completed(Ghost(value));
                }
                delivered
            },
            other => {
                self.slot = other;
                false
            },
        }
    }

    /// Delivers `result` unless `cancelled`: a cancelled producer is
    /// abandoned instead, so that a late callback never delivers.
    pub fn send_unless_cancelled(&mut self, cancelled: bool, result: PermissionResult) -> (delivered: bool)
        ensures
            cancelled ==> !delivered && final(self)@ == (if old(self)@ is Pending {
                ProducerState::Abandoned
            } else {
                old(self)@
            }),
            !cancelled ==> send_step(old(self)@, final(self)@, delivered, result),
    {
        if cancelled {
            self.abandon();
            false
        } else {
            self.send(result)
        }
    }

    /// Gives up without sending: the receiver then observes a closed channel.
    pub fn abandon(&mut self)
        ensures
            final(self)@ == (if old(self)@ is Pending {
                ProducerState::Abandoned
            } else {
                old(self)@
            }),
    {
        if self.is_pending() {
            self.slot = Slot::Abandoned;
        }
    }

    /// Whether a send would still be attempted.
    pub fn is_pending(&self) -> (r: bool)
        ensures
            r == (self@ is Pending),
    {
        match self.slot {
            Slot::Pending(_) => true,
            _ => false,
        }
    }
}

/// A connected pair: a pending producer and the receiver it feeds.
pub fn result_channel() -> (r: (ResultProducer, Receiver<PermissionResult>))
    ensures
        r.0@ is Pending,
{
    let (tx, rx) = tokio::sync::oneshot::channel();
    (ResultProducer { slot: Slot::Pending(tx) }, rx)
}

/// A producer delivers at most once: after any first send, every further send
/// is a no-op that delivers nothing and leaves the producer as it is, so a
/// completed producer keeps the first delivered value.
pub proof fn law_single_delivery(
    before: ProducerState,
    first_value: PermissionResult,
    after_first: ProducerState,
    first: bool,
    second_value: PermissionResult,
    after_second: ProducerState,
    second: bool,
)
    requires
        send_step(before, after_first, first, first_value),
        send_step(after_first, after_second, second, second_value),
    ensures
        !second,
        after_second == after_first,
        !(after_first is Pending),
        first ==> after_second == ProducerState::Completed(first_value),
{
}

} // verus!
