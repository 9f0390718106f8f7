//! The watchers of one request, side by side. Each is told only of its own
//! ticks and fetches, so each runs as if it were alone.

use vstd::prelude::*;
use crate::history::{emission, emissions, run, step, Emission, WatcherInput};
use crate::watcher::WatcherModel;

verus! {

/// An input on its way to one watcher of a fleet, named by its place.
pub struct Addressed {
    pub target: int,
    pub input: WatcherInput,
}

/// The fleet after one addressed input: the watcher it is for takes its
/// step, the others are not touched. An input for no watcher is dropped.
pub open spec fn fleet_step(fleet: Seq<WatcherModel>, addressed: Addressed) -> Seq<WatcherModel> {
    if 0 <= addressed.target < fleet.len() {
        fleet.update(addressed.target, step(fleet[addressed.target], addressed.input))
    } else {
        fleet
    }
}

/// The fleet after all of `inputs`, in whatever order they are interleaved.
pub open spec fn fleet_run(fleet: Seq<WatcherModel>, inputs: Seq<Addressed>) -> Seq<WatcherModel>
    decreases inputs.len(),
{
    if inputs.len() == 0 {
        fleet
    } else {
        fleet_run(fleet_step(fleet, inputs[0]), inputs.drop_first())
    }
}

/// What the watcher at `member` emits while the fleet takes `inputs`.
pub open spec fn fleet_emissions(fleet: Seq<WatcherModel>, inputs: Seq<Addressed>, member: int)
    -> Seq<Emission>
    recommends
        0 <= member < fleet.len(),
    decreases inputs.len(),
{
    if inputs.len() == 0 {
        Seq::empty()
    } else {
        let later = fleet_emissions(fleet_step(fleet, inputs[0]), inputs.drop_first(), member);
        if inputs[0].target == member {
            match emission(fleet[member], inputs[0].input) {
                Some(first) => seq![first] + later,
                None => later,
            }
        } else {
            later
        }
    }
}

/// The inputs among `inputs` that are for the watcher at `member`, in order.
pub open spec fn inputs_of(inputs: Seq<Addressed>, member: int) -> Seq<WatcherInput>
    decreases inputs.len(),
{
    if inputs.len() == 0 {
        Seq::empty()
    } else {
        let later = inputs_of(inputs.drop_first(), member);
        if inputs[0].target == member {
            seq![inputs[0].input] + later
        } else {
            later
        }
    }
}

/// Watchers are independent. However the inputs of a fleet are interleaved,
/// the fleet keeps its size, and each watcher ends where it would have ended,
/// and emits what it would have emitted, had it been given its own inputs
/// alone. What happens to a sibling, its failure included, changes nothing.
pub proof fn lemma_watchers_run_alone(
    fleet: Seq<WatcherModel>,
    inputs: Seq<Addressed>,
    member: int,
)
    requires
        0 <= member < fleet.len(),
    ensures
        fleet_run(fleet, inputs).len() == fleet.len(),
        fleet_run(fleet, inputs)[member] == run(fleet[member], inputs_of(inputs, member)),
        fleet_emissions(fleet, inputs, member) == emissions(
            fleet[member],
            inputs_of(inputs, member),
        ),
    decreases inputs.len(),
{
    if inputs.len() > 0 {
        let next = fleet_step(fleet, inputs[0]);
        let rest = inputs.drop_first();
        lemma_watchers_run_alone(next, rest, member);
        if inputs[0].target == member {
            let own = seq![inputs[0].input] + inputs_of(rest, member);
            assert(own[0] == inputs[0].input);
            assert(own.drop_first() =~= inputs_of(rest, member));
        }
    }
}

} // verus!
