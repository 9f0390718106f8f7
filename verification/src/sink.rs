//! The notification sink: where emitted change events go.

use vstd::prelude::*;
use crate::event::ChangeEventPayload;

verus! {

/// The runtime contract that change events are meant for.
pub const CONTRACT_NAME: &'static str = "polkability";

/// Hands a change event to the runtime contract. Delivery is fire and
/// forget: nothing is acknowledged and nothing comes back. No contract is
/// attached yet, so the event is dropped here.
pub fn notify_runtime_contract(_args: &ChangeEventPayload) {
}

} // verus!
