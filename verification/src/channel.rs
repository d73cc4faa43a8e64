//! The receiving end of the note channel.
//!
//! Events come in from another thread through a channel of the standard
//! library, first in, first out. The audio side never waits for one: it asks
//! once per tick and takes what is there.

use vstd::prelude::*;
use std::sync::mpsc::Receiver;

verus! {

/// The receiving half of a channel of the standard library,
/// `std::sync::mpsc::Receiver`. Nothing is known of what it holds.
#[verifier::external_type_specification]
#[verifier::external_body]
#[verifier::reject_recursive_types(T)]
pub struct ExReceiver<T>(Receiver<T>);

/// Takes the oldest pending message off the channel without waiting, by
/// `Receiver::try_recv` of the standard library. `None` stands for both of its
/// errors, an empty channel and one whose senders are gone. Which of them comes
/// back depends on the sending side, so nothing is claimed of the result.
#[verifier::external_body]
pub(crate) fn try_receive<T>(receiver: &Receiver<T>) -> (message: Option<T>) {
    match receiver.try_recv() {
        Ok(message) => Some(message),
        Err(_) => None,
    }
}

} // verus!
