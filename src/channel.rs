use vstd::prelude::*;

use crate::error::Outcome;
use tokio::sync::oneshot::{Receiver, Sender};

verus! {

/// The sending half of tokio's one-shot channel: the only value that carries
/// an evaluation's outcome out of the engine's thread.
#[verifier::external_type_specification]
#[verifier::external_body]
#[verifier::reject_recursive_types(T)]
pub struct ExSender<T>(tokio::sync::oneshot::Sender<T>);

/// The receiving half of tokio's one-shot channel, held by the host.
#[verifier::external_type_specification]
#[verifier::external_body]
#[verifier::reject_recursive_types(T)]
pub struct ExReceiver<T>(tokio::sync::oneshot::Receiver<T>);

/// The error a receiver yields when its sender was dropped unused; the
/// receiver's `Future` impl names it.
#[verifier::external_type_specification]
#[verifier::external_body]
pub struct ExRecvError(tokio::sync::oneshot::error::RecvError);

/// The channel a sender belongs to.
pub uninterp spec fn sender_channel(s: Sender<Outcome>) -> int;

/// The channel a receiver belongs to.
pub uninterp spec fn receiver_channel(r: Receiver<Outcome>) -> int;

/// Relies on tokio::sync::oneshot::channel: the two halves it returns share
/// one channel.
#[verifier::external_body]
pub(crate) fn outcome_channel() -> (r: (Sender<Outcome>, Receiver<Outcome>))
    ensures
        sender_channel(r.0) == receiver_channel(r.1),
{
    tokio::sync::oneshot::channel()
}

/// Relies on tokio::sync::oneshot::Sender::send: it consumes the sender, and
/// where the receiver is gone it hands the value back unchanged.
pub assume_specification<T>[ tokio::sync::oneshot::Sender::<T>::send ](s: tokio::sync::oneshot::Sender<T>, t: T) -> (r: Result<(), T>)
    ensures
        r matches Err(back) ==> back == t,
;

/// The record that one outcome was sent on one channel. Only `fire`, which
/// makes the send, creates one.
pub struct Delivery {
    channel: Ghost<int>,
    outcome: Ghost<Outcome>,
}

impl Delivery {
    pub closed spec fn channel(&self) -> int {
        self.channel@
    }

    pub closed spec fn outcome(&self) -> Outcome {
        self.outcome@
    }
}

/// Sends `o` on the channel of `s`, consuming the sender, and records it.
/// Whether the host still listens does not change what was sent.
pub fn fire(s: Sender<Outcome>, o: Outcome) -> (d: Delivery)
    ensures
        d.channel() == sender_channel(s),
        d.outcome() == o,
{
    let d = Delivery { channel: Ghost(sender_channel(s)), outcome: Ghost(o) };
    let _ = s.send(o);
    d
}

} // verus!
