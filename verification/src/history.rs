//! A watcher over time: what follows from the single steps for every
//! sequence of ticks and completed fetches that a watcher may be told of.

use vstd::prelude::*;
use crate::condition::occurs_in;
use crate::event::{EventModel, FetchError, ReadingModel};
use crate::watcher::{
    after_fetch, after_tick, poll_outcome, OutcomeModel, WatcherModel, WatcherState,
};

verus! {

/// What a watcher can be told of.
pub enum WatcherInput {
    /// Its interval has passed.
    Tick,
    /// A fetch has come back, with what it yielded and when it completed.
    Fetched(Result<Seq<char>, FetchError>, ReadingModel),
}

/// An emitted event together with the instant, in milliseconds since the Unix
/// epoch, at which its fetch completed.
pub struct Emission {
    pub event: EventModel,
    pub completed_at_millis: i64,
}

/// The watcher after one input.
pub open spec fn step(w: WatcherModel, input: WatcherInput) -> WatcherModel {
    match input {
        WatcherInput::Tick => after_tick(w),
        WatcherInput::Fetched(fetched, _) => after_fetch(w, fetched),
    }
}

/// What the watcher emits on one input, if anything.
pub open spec fn emission(w: WatcherModel, input: WatcherInput) -> Option<Emission> {
    match input {
        WatcherInput::Tick => None,
        WatcherInput::Fetched(fetched, now) => match poll_outcome(w, fetched, now) {
            OutcomeModel::Observed(report) => match report.emitted {
                Some(event) => Some(
                    Emission { event, completed_at_millis: report.observed_at.epoch_millis },
                ),
                None => None,
            },
            _ => None,
        },
    }
}

/// The watcher after all of `inputs`, taken in order.
pub open spec fn run(w: WatcherModel, inputs: Seq<WatcherInput>) -> WatcherModel
    decreases inputs.len(),
{
    if inputs.len() == 0 {
        w
    } else {
        run(step(w, inputs[0]), inputs.drop_first())
    }
}

/// Everything the watcher emits while it takes `inputs`, in order.
pub open spec fn emissions(w: WatcherModel, inputs: Seq<WatcherInput>) -> Seq<Emission>
    decreases inputs.len(),
{
    if inputs.len() == 0 {
        Seq::empty()
    } else {
        let later = emissions(step(w, inputs[0]), inputs.drop_first());
        match emission(w, inputs[0]) {
            Some(first) => seq![first] + later,
            None => later,
        }
    }
}

/// The fetches in `inputs` completed in the order in which they are listed:
/// none completed before one that is listed ahead of it.
pub open spec fn clock_in_order(inputs: Seq<WatcherInput>) -> bool {
    forall|i: int, j: int|
        0 <= i <= j < inputs.len() ==> completed_no_later(#[trigger] inputs[i], #[trigger] inputs[j])
}

/// If both inputs are completed fetches, the first completed no later than
/// the second.
pub open spec fn completed_no_later(first: WatcherInput, second: WatcherInput) -> bool {
    match (first, second) {
        (WatcherInput::Fetched(_, earlier), WatcherInput::Fetched(_, later)) => earlier.epoch_millis
            <= later.epoch_millis,
        _ => true,
    }
}

/// A watcher emits on an input exactly when the input is a fetch that it was
/// waiting for, the fetch brought a text, and the watcher's topic occurs in
/// that text.
pub proof fn lemma_emits_iff_satisfied(w: WatcherModel, input: WatcherInput)
    ensures
        emission(w, input) is Some <==> (w.state == WatcherState::Fetching && match input {
            WatcherInput::Fetched(Ok(body), _) => occurs_in(body, w.watch.topic),
            _ => false,
        }),
{
}

/// No input changes what a watcher watches: its URL, topic and interval are
/// those it was created with. Every event it emits carries that topic.
pub proof fn lemma_watch_is_fixed(w: WatcherModel, inputs: Seq<WatcherInput>)
    ensures
        run(w, inputs).watch == w.watch,
        forall|k: int|
            0 <= k < emissions(w, inputs).len() ==> (#[trigger] emissions(w, inputs)[k]).event.topic
                == w.watch.topic,
    decreases inputs.len(),
{
    if inputs.len() > 0 {
        let next = step(w, inputs[0]);
        let later = emissions(next, inputs.drop_first());
        lemma_watch_is_fixed(next, inputs.drop_first());
        assert forall|k: int| 0 <= k < emissions(w, inputs).len() implies (#[trigger] emissions(
            w,
            inputs,
        )[k]).event.topic == w.watch.topic by {
            match emission(w, inputs[0]) {
                Some(first) => {
                    assert(emissions(w, inputs) == seq![first] + later);
                    if k > 0 {
                        assert(emissions(w, inputs)[k] == later[k - 1]);
                    }
                },
                None => {},
            }
        }
    }
}

/// The input is a fetch that failed.
pub open spec fn is_failed_fetch(input: WatcherInput) -> bool {
    match input {
        WatcherInput::Fetched(Err(_), _) => true,
        _ => false,
    }
}

/// A watcher does not end by itself. As long as no fetch fails, it is never
/// terminated, however many ticks and texts it takes and whether or not its
/// topic shows in them.
pub proof fn lemma_ends_only_on_failure(w: WatcherModel, inputs: Seq<WatcherInput>)
    requires
        w.state != WatcherState::Terminated,
        forall|i: int| 0 <= i < inputs.len() ==> !is_failed_fetch(#[trigger] inputs[i]),
    ensures
        run(w, inputs).state != WatcherState::Terminated,
    decreases inputs.len(),
{
    if inputs.len() > 0 {
        let rest = inputs.drop_first();
        assert(!is_failed_fetch(inputs[0]));
        assert forall|i: int| 0 <= i < rest.len() implies !is_failed_fetch(#[trigger] rest[i]) by {
            assert(rest[i] == inputs[i + 1]);
        }
        lemma_ends_only_on_failure(step(w, inputs[0]), rest);
    }
}

/// A terminated watcher stays terminated and emits nothing, whatever it is
/// told of afterwards.
pub proof fn lemma_terminated_is_silent(w: WatcherModel, inputs: Seq<WatcherInput>)
    requires
        w.state == WatcherState::Terminated,
    ensures
        run(w, inputs) == w,
        emissions(w, inputs) == Seq::<Emission>::empty(),
    decreases inputs.len(),
{
    if inputs.len() > 0 {
        lemma_terminated_is_silent(step(w, inputs[0]), inputs.drop_first());
    }
}

/// A fetch that fails while the watcher waits for it terminates the watcher:
/// from then on it emits nothing.
pub proof fn lemma_failed_fetch_ends_watcher(
    w: WatcherModel,
    error: FetchError,
    now: ReadingModel,
    inputs: Seq<WatcherInput>,
)
    requires
        w.state == WatcherState::Fetching,
    ensures
        emissions(w, seq![WatcherInput::Fetched(Err(error), now)] + inputs) == Seq::<
            Emission,
        >::empty(),
        run(w, seq![WatcherInput::Fetched(Err(error), now)] + inputs).state
            == WatcherState::Terminated,
{
    let failed = WatcherInput::Fetched(Err(error), now);
    let all = seq![failed] + inputs;
    assert(all[0] == failed);
    assert(all.drop_first() =~= inputs);
    lemma_terminated_is_silent(step(w, failed), inputs);
}

/// Every emission of a run completed no earlier than `floor`, if every fetch
/// of the run did.
proof fn lemma_emissions_not_before(w: WatcherModel, inputs: Seq<WatcherInput>, floor: i64)
    requires
        forall|i: int|
            0 <= i < inputs.len() ==> match #[trigger] inputs[i] {
                WatcherInput::Fetched(_, now) => floor <= now.epoch_millis,
                WatcherInput::Tick => true,
            },
    ensures
        forall|k: int|
            0 <= k < emissions(w, inputs).len() ==> floor <= (#[trigger] emissions(
                w,
                inputs,
            )[k]).completed_at_millis,
    decreases inputs.len(),
{
    if inputs.len() > 0 {
        let rest = inputs.drop_first();
        assert forall|i: int| 0 <= i < rest.len() implies match #[trigger] rest[i] {
            WatcherInput::Fetched(_, now) => floor <= now.epoch_millis,
            WatcherInput::Tick => true,
        } by {
            assert(rest[i] == inputs[i + 1]);
        }
        let later = emissions(step(w, inputs[0]), rest);
        lemma_emissions_not_before(step(w, inputs[0]), rest, floor);
        assert forall|k: int| 0 <= k < emissions(w, inputs).len() implies floor <= (
        #[trigger] emissions(w, inputs)[k]).completed_at_millis by {
            match emission(w, inputs[0]) {
                Some(first) => {
                    assert(emissions(w, inputs) == seq![first] + later);
                    if k > 0 {
                        assert(emissions(w, inputs)[k] == later[k - 1]);
                    }
                },
                None => {},
            }
        }
    }
}

/// Where the clock does not run backwards between the fetches of a run, the
/// events of the run are emitted in the order of their completion: a later
/// emission never completed before an earlier one.
pub proof fn lemma_completion_in_order(w: WatcherModel, inputs: Seq<WatcherInput>)
    requires
        clock_in_order(inputs),
    ensures
        forall|a: int, b: int|
            0 <= a <= b < emissions(w, inputs).len() ==> (#[trigger] emissions(
                w,
                inputs,
            )[a]).completed_at_millis <= (#[trigger] emissions(w, inputs)[b]).completed_at_millis,
    decreases inputs.len(),
{
    if inputs.len() > 0 {
        let first = inputs[0];
        let rest = inputs.drop_first();
        let later = emissions(step(w, first), rest);
        assert forall|i: int, j: int| 0 <= i <= j < rest.len() implies completed_no_later(
            #[trigger] rest[i],
            #[trigger] rest[j],
        ) by {
            assert(rest[i] == inputs[i + 1]);
            assert(rest[j] == inputs[j + 1]);
        }
        lemma_completion_in_order(step(w, first), rest);
        match emission(w, first) {
            Some(head) => {
                assert forall|i: int| 0 <= i < rest.len() implies match #[trigger] rest[i] {
                    WatcherInput::Fetched(_, now) => head.completed_at_millis <= now.epoch_millis,
                    WatcherInput::Tick => true,
                } by {
                    assert(rest[i] == inputs[i + 1]);
                    assert(completed_no_later(inputs[0], inputs[i + 1]));
                }
                lemma_emissions_not_before(step(w, first), rest, head.completed_at_millis);
                assert(emissions(w, inputs) == seq![head] + later);
            },
            None => {
                assert(emissions(w, inputs) == later);
            },
        }
    }
}

} // verus!
