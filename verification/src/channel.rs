//! The outbound message channels. The bridge only ever sends; both channels
//! are owned by its collaborators, so sending is the one operation taken on
//! trust here.

use vstd::prelude::*;

verus! {

/// Declares crossbeam_channel::Sender, the sending half of the two outbound
/// channels; the bridge holds one per channel and only ever calls `send` on
/// it.
#[verifier::external_type_specification]
#[verifier::external_body]
#[verifier::reject_recursive_types(T)]
pub struct ExSender<T>(crossbeam_channel::Sender<T>);

/// Relies on crossbeam_channel::Sender::send: the message is queued for the
/// receiving side (waiting for room if the channel was created bounded)
/// unless every receiver of the channel has been dropped, in which case
/// nothing is queued and the message comes back unchanged inside the error.
#[verifier::external_body]
pub(crate) fn channel_send<T>(tx: &crossbeam_channel::Sender<T>, msg: T) -> (r: Result<(), T>)
    ensures
        r matches Err(m) ==> m == msg,
{
    tx.send(msg).map_err(|e| e.0)
}

} // verus!
