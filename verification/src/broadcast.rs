//! The writing side of the state broadcast.

use vstd::prelude::*;
use tokio::sync::watch::Sender;
use crate::loudness::InputsLoudness;

verus! {

/// The writing half of the state broadcast: a single slot that holds the
/// latest snapshot for any number of readers. Opaque here: snapshots are only
/// handed to it.
#[verifier::external_type_specification]
#[verifier::external_body]
#[verifier::reject_recursive_types(T)]
pub struct ExSnapshotSender<T>(tokio::sync::watch::Sender<T>);

/// Calls `tokio::sync::watch::Sender::send`, which replaces the value in the
/// slot and wakes the readers that wait for a change. It does not wait for
/// readers, but it takes the slot's lock, so a reader that holds a borrow of
/// the value holds the call up for as long. A slot without readers refuses
/// the value; that is ignored. Trusted; nothing is claimed.
#[verifier::external_body]
pub(crate) fn write_snapshot(sender: &Sender<InputsLoudness>, snapshot: InputsLoudness) {
    let _ = sender.send(snapshot);
}

} // verus!
