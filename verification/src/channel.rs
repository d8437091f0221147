//! The channels between the session and the view, and the identifiers that
//! tie a notification to a row.
//!
//! The channels are those of `futures_channel`, the identifiers those of
//! `uuid`. Nothing in this file is proved: each function states what its
//! crate's source shows and no more.

use crate::action::ActionMessage;
use vstd::prelude::*;

verus! {

/// The sending half of a single-use channel.
#[verifier::external_type_specification]
#[verifier::external_body]
#[verifier::reject_recursive_types(T)]
pub struct ExAckSender<T>(futures_channel::oneshot::Sender<T>);

/// The receiving half of a single-use channel.
#[verifier::external_type_specification]
#[verifier::external_body]
#[verifier::reject_recursive_types(T)]
pub struct ExAckReceiver<T>(futures_channel::oneshot::Receiver<T>);

/// What the receiving half of a single-use channel yields where the sending
/// half went away without a value.
#[verifier::external_type_specification]
#[verifier::external_body]
pub struct ExCanceled(futures_channel::oneshot::Canceled);

/// The sending half of a bounded queue.
#[verifier::external_type_specification]
#[verifier::external_body]
#[verifier::reject_recursive_types(T)]
pub struct ExMailbox<T>(futures_channel::mpsc::Sender<T>);

/// `uuid::Uuid::new_v4`, as the 128 bits of the identifier. But for the six
/// that mark it as a random identifier the bits are random, so nothing is
/// said of them: two calls may even agree.
#[verifier::external_body]
pub(crate) fn fresh_id() -> u128 {
    uuid::Uuid::new_v4().as_u128()
}

/// `futures_channel::oneshot::channel` for one boolean.
#[verifier::external_body]
pub(crate) fn ack_channel() -> (
    futures_channel::oneshot::Sender<bool>,
    futures_channel::oneshot::Receiver<bool>,
) {
    futures_channel::oneshot::channel()
}

/// `futures_channel::oneshot::Sender::send`. Says whether the value was
/// handed over; it is not where the receiving half is gone, which the
/// sender cannot know beforehand.
#[verifier::external_body]
pub(crate) fn answer(ack: futures_channel::oneshot::Sender<bool>, value: bool) -> bool {
    ack.send(value).is_ok()
}

/// `futures_channel::mpsc::Sender::try_send`. Says whether the queue took
/// the notification; it does not where the queue is full or its receiving
/// half is gone, which depends on what else goes on.
#[verifier::external_body]
pub(crate) fn post(
    mailbox: &mut futures_channel::mpsc::Sender<ActionMessage>,
    message: ActionMessage,
) -> bool {
    mailbox.try_send(message).is_ok()
}

} // verus!
