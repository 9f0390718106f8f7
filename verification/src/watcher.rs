//! The watcher of one resource: a state machine that is told of ticks and of
//! completed fetches, and answers with what to do next.
//!
//! Between two ticks a watcher is `Scheduled`. A tick moves it to `Fetching`
//! and asks for the resource. The fetched text is evaluated and, where the
//! topic occurs in it, an event is emitted, all within the step that receives
//! the text; the watcher is then `Scheduled` again. A failed fetch ends the
//! watcher: it is `Terminated` and stays so.

use vstd::prelude::*;
use crate::clock::read_local_clock;
use crate::condition::{change_condition_successfied, condition_of};
use crate::event::{
    emitted_model, fetch_model, ChangeEventPayload, ClockReading, EventModel, FetchError,
    ReadingModel,
};
use crate::sink::notify_runtime_contract;

verus! {

/// What one watcher observes: a resource, the topic to look for in it, and
/// the time between two polls.
#[derive(Clone, Debug)]
pub struct ResourceWatch {
    pub url: String,
    pub topic: String,
    pub interval_millis: u64,
}

/// A watch as plain values.
pub struct WatchModel {
    pub url: Seq<char>,
    pub topic: Seq<char>,
    pub interval_millis: u64,
}

impl View for ResourceWatch {
    type V = WatchModel;

    open spec fn view(&self) -> WatchModel {
        WatchModel { url: self.url@, topic: self.topic@, interval_millis: self.interval_millis }
    }
}

/// Where a watcher stands in its cycle.
#[derive(Clone, Copy, Debug, PartialEq, Eq, Structural)]
pub enum WatcherState {
    /// Waiting for the next tick.
    Scheduled,
    /// A fetch was asked for and has not come back.
    Fetching,
    /// A fetch failed. The watcher polls no more.
    Terminated,
}

/// A watcher as plain values.
pub struct WatcherModel {
    pub watch: WatchModel,
    pub state: WatcherState,
}

/// What a watcher asks of its driver after a tick.
#[derive(Clone, Debug)]
pub enum WatcherAction {
    /// Fetch the text behind this URL and hand back what came of it.
    Fetch(String),
    /// A fetch is still out: do nothing until it is back.
    Wait,
    /// The watcher has terminated: stop driving it.
    Halt,
}

/// An action as plain values.
pub enum ActionModel {
    Fetch(Seq<char>),
    Wait,
    Halt,
}

impl View for WatcherAction {
    type V = ActionModel;

    open spec fn view(&self) -> ActionModel {
        match *self {
            WatcherAction::Fetch(url) => ActionModel::Fetch(url@),
            WatcherAction::Wait => ActionModel::Wait,
            WatcherAction::Halt => ActionModel::Halt,
        }
    }
}

/// What a watcher found in a fetched text.
#[derive(Clone, Debug)]
pub struct PollReport {
    /// Whether the topic occurs in the text.
    pub satisfied: bool,
    /// When the fetch completed.
    pub observed_at: ClockReading,
    /// The event that was emitted, if the condition held.
    pub emitted: Option<ChangeEventPayload>,
}

/// A report as plain values.
pub struct ReportModel {
    pub satisfied: bool,
    pub observed_at: ReadingModel,
    pub emitted: Option<EventModel>,
}

impl View for PollReport {
    type V = ReportModel;

    open spec fn view(&self) -> ReportModel {
        ReportModel {
            satisfied: self.satisfied,
            observed_at: self.observed_at@,
            emitted: emitted_model(self.emitted),
        }
    }
}

/// What became of one completed fetch.
#[derive(Clone, Debug)]
pub enum PollOutcome {
    /// The text came and was evaluated.
    Observed(PollReport),
    /// The fetch failed, and the watcher has terminated on it.
    Failed(FetchError),
    /// The watcher had no fetch out; what was handed to it is discarded.
    Ignored,
}

/// An outcome as plain values.
pub enum OutcomeModel {
    Observed(ReportModel),
    Failed(FetchError),
    Ignored,
}

impl View for PollOutcome {
    type V = OutcomeModel;

    open spec fn view(&self) -> OutcomeModel {
        match *self {
            PollOutcome::Observed(report) => OutcomeModel::Observed(report@),
            PollOutcome::Failed(error) => OutcomeModel::Failed(error),
            PollOutcome::Ignored => OutcomeModel::Ignored,
        }
    }
}

/// The watcher after a tick: a scheduled watcher starts fetching, any other
/// stays as it is.
pub open spec fn after_tick(w: WatcherModel) -> WatcherModel {
    match w.state {
        WatcherState::Scheduled => WatcherModel { watch: w.watch, state: WatcherState::Fetching },
        _ => w,
    }
}

/// What a watcher asks for when a tick reaches it.
pub open spec fn tick_action(w: WatcherModel) -> ActionModel {
    match w.state {
        WatcherState::Scheduled => ActionModel::Fetch(w.watch.url),
        WatcherState::Fetching => ActionModel::Wait,
        WatcherState::Terminated => ActionModel::Halt,
    }
}

/// The watcher after a fetch has come back: scheduled again if the text came,
/// terminated if the fetch failed. A watcher with no fetch out stays as it is.
pub open spec fn after_fetch(w: WatcherModel, fetched: Result<Seq<char>, FetchError>)
    -> WatcherModel {
    match w.state {
        WatcherState::Fetching => WatcherModel {
            watch: w.watch,
            state: if fetched is Ok {
                WatcherState::Scheduled
            } else {
                WatcherState::Terminated
            },
        },
        _ => w,
    }
}

/// The event of a watch whose topic showed in a fetch that completed at `now`.
pub open spec fn event_of(watch: WatchModel, now: ReadingModel) -> EventModel {
    EventModel { completion_date: now.text, topic: watch.topic }
}

/// What a watcher makes of a fetch that completed at `now`. Only a watcher
/// with a fetch out looks at it. It emits an event exactly when the text came
/// and the topic occurs in it.
pub open spec fn poll_outcome(
    w: WatcherModel,
    fetched: Result<Seq<char>, FetchError>,
    now: ReadingModel,
) -> OutcomeModel {
    match w.state {
        WatcherState::Fetching => match condition_of(fetched, w.watch.topic) {
            Ok(satisfied) => OutcomeModel::Observed(
                ReportModel {
                    satisfied,
                    observed_at: now,
                    emitted: if satisfied {
                        Some(event_of(w.watch, now))
                    } else {
                        None
                    },
                },
            ),
            Err(error) => OutcomeModel::Failed(error),
        },
        _ => OutcomeModel::Ignored,
    }
}

/// The watcher of one resource.
#[derive(Debug)]
pub struct ResourceWatcher {
    watch: ResourceWatch,
    state: WatcherState,
}

impl View for ResourceWatcher {
    type V = WatcherModel;

    closed spec fn view(&self) -> WatcherModel {
        WatcherModel { watch: self.watch@, state: self.state }
    }
}

impl ResourceWatcher {
    /// A watcher for `watch`, waiting for its first tick.
    pub fn new(watch: ResourceWatch) -> (watcher: ResourceWatcher)
        ensures
            watcher@ == (WatcherModel { watch: watch@, state: WatcherState::Scheduled }),
    {
        ResourceWatcher { watch, state: WatcherState::Scheduled }
    }

    /// The watch that this watcher was created for.
    pub fn watch(&self) -> (watch: &ResourceWatch)
        ensures
            watch@ == self@.watch,
    {
        &self.watch
    }

    /// Where the watcher stands in its cycle.
    pub fn state(&self) -> (state: WatcherState)
        ensures
            state == self@.state,
    {
        self.state
    }

    /// Tells the watcher that its interval has passed. A scheduled watcher
    /// asks for its resource and is then fetching. A tick that comes while a
    /// fetch is out starts no second fetch, and a terminated watcher asks to
    /// be left alone.
    pub fn on_tick(&mut self) -> (action: WatcherAction)
        ensures
            final(self)@ == after_tick(old(self)@),
            action@ == tick_action(old(self)@),
    {
        match self.state {
            WatcherState::Scheduled => {
                self.state = WatcherState::Fetching;
                WatcherAction::Fetch(self.watch.url.clone())
            },
            WatcherState::Fetching => WatcherAction::Wait,
            WatcherState::Terminated => WatcherAction::Halt,
        }
    }

    /// Hands the watcher what came of its fetch, completed at `now`.
    ///
    /// A text is searched for the topic. If the topic occurs in it, the report
    /// carries an event with the watcher's topic and `now` as completion date;
    /// if not, it carries none. Either way the watcher is scheduled again. A
    /// failed fetch terminates the watcher. A watcher that had no fetch out
    /// changes nothing and emits nothing.
    pub fn conclude_poll(&mut self, fetched: Result<String, FetchError>, now: ClockReading) -> (outcome:
        PollOutcome)
        ensures
            final(self)@ == after_fetch(old(self)@, fetch_model(fetched)),
            outcome@ == poll_outcome(old(self)@, fetch_model(fetched), now@),
    {
        match self.state {
            WatcherState::Fetching => {},
            _ => {
                return PollOutcome::Ignored;
            },
        }
        match change_condition_successfied(&fetched, self.watch.topic.as_str()) {
            Ok(satisfied) => {
                let emitted = if satisfied {
                    Some(ChangeEventPayload::at(&now, self.watch.topic.as_str()))
                } else {
                    None
                };
                self.state = WatcherState::Scheduled;
                PollOutcome::Observed(PollReport { satisfied, observed_at: now, emitted })
            },
            Err(error) => {
                self.state = WatcherState::Terminated;
                PollOutcome::Failed(error)
            },
        }
    }

    /// Hands the watcher what came of its fetch, which completed just now:
    /// reads the clock, concludes the poll as `conclude_poll` does, and
    /// passes an emitted event on to the notification sink.
    pub fn on_fetched(&mut self, fetched: Result<String, FetchError>) -> (outcome: PollOutcome)
        ensures
            final(self)@ == after_fetch(old(self)@, fetch_model(fetched)),
            exists|now: ReadingModel|
                outcome@ == poll_outcome(old(self)@, fetch_model(fetched), now),
    {
        let time_now = read_local_clock();
        let outcome = self.conclude_poll(fetched, time_now);
        match &outcome {
            PollOutcome::Observed(report) => {
                match &report.emitted {
                    Some(change_event_args) => notify_runtime_contract(change_event_args),
                    None => {},
                }
            },
            _ => {},
        }
        outcome
    }
}

} // verus!
