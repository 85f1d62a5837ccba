//! Trusted declarations of the channel primitives that carry replies and
//! property-change notifications.
//!
//! A caller waits for its reply on a one-shot channel whose sender sits in
//! the correlation table; a subscriber listens on a many-shot channel whose
//! sender sits in the subscription table. The channels themselves come from
//! an outside library; nothing is claimed about them beyond what each
//! wrapper's contract states, and the reactor's own contracts hold whatever
//! a delivery attempt returns.

use vstd::prelude::*;

use crate::message::Outcome;
use tokio::sync::mpsc;
use tokio::sync::oneshot;

verus! {

#[verifier::external_type_specification]
#[verifier::external_body]
#[verifier::reject_recursive_types(T)]
pub struct ExOneshotSender<T>(oneshot::Sender<T>);

#[verifier::external_type_specification]
#[verifier::external_body]
#[verifier::reject_recursive_types(T)]
pub struct ExOneshotReceiver<T>(oneshot::Receiver<T>);

#[verifier::external_type_specification]
#[verifier::external_body]
pub struct ExRecvError(oneshot::error::RecvError);

#[verifier::external_type_specification]
#[verifier::external_body]
#[verifier::reject_recursive_types(T)]
pub struct ExUnboundedSender<T>(mpsc::UnboundedSender<T>);

#[verifier::external_type_specification]
#[verifier::external_body]
#[verifier::reject_recursive_types(T)]
pub struct ExUnboundedReceiver<T>(mpsc::UnboundedReceiver<T>);

/// Relies on `tokio::sync::mpsc::UnboundedSender::clone`: the clone is one
/// more sender handle feeding the same queue.
pub assume_specification<T>[ <mpsc::UnboundedSender<T> as Clone>::clone ](
    tx: &mpsc::UnboundedSender<T>,
) -> mpsc::UnboundedSender<T>;

/// Relies on `tokio::sync::oneshot::channel`: returns one fresh one-shot
/// reply channel, sender and receiver paired.
#[verifier::external_body]
pub(crate) fn reply_channel() -> (oneshot::Sender<Outcome>, oneshot::Receiver<Outcome>) {
    oneshot::channel()
}

/// Relies on `tokio::sync::oneshot::Sender::send`: hands the outcome to the
/// paired receiver, reporting whether anyone still listens.
#[verifier::external_body]
pub(crate) fn send_reply(tx: oneshot::Sender<Outcome>, outcome: Outcome) -> (delivered: bool) {
    tx.send(outcome).is_ok()
}

/// Relies on `tokio::sync::mpsc::unbounded_channel`: returns one fresh
/// many-shot notification channel, sender and receiver paired.
#[verifier::external_body]
pub(crate) fn property_channel() -> (mpsc::UnboundedSender<String>, mpsc::UnboundedReceiver<
    String,
>) {
    mpsc::unbounded_channel()
}

/// Relies on `tokio::sync::mpsc::UnboundedSender::send`: queues the payload
/// for the paired receiver, reporting whether it still listens.
#[verifier::external_body]
pub(crate) fn send_property(tx: &mpsc::UnboundedSender<String>, data: String) -> (delivered:
    bool) {
    tx.send(data).is_ok()
}

} // verus!
