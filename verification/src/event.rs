//! The values that pass between a watcher and its surroundings: the outcome
//! of a fetch, a reading of the clock, and the change event itself.

use vstd::prelude::*;

verus! {

/// Why the text of a resource could not be had.
#[derive(Clone, Copy, Debug, PartialEq, Eq, Structural)]
pub enum FetchError {
    /// The request did not go through: no connection, no answer.
    Transport,
    /// An answer came, but its body could not be read as text.
    Body,
}

/// What one fetch yields: the text of the resource, or the reason it failed.
pub open spec fn fetch_model(fetched: Result<String, FetchError>) -> Result<Seq<char>, FetchError> {
    match fetched {
        Ok(body) => Ok(body@),
        Err(error) => Err(error),
    }
}

/// One reading of the local clock.
#[derive(Clone, Debug)]
pub struct ClockReading {
    /// The instant in RFC 3339 form, to the millisecond, with its offset
    /// from UTC.
    pub text: String,
    /// The same instant as milliseconds since the Unix epoch.
    pub epoch_millis: i64,
}

/// A clock reading as plain values.
pub struct ReadingModel {
    pub text: Seq<char>,
    pub epoch_millis: i64,
}

impl View for ClockReading {
    type V = ReadingModel;

    open spec fn view(&self) -> ReadingModel {
        ReadingModel { text: self.text@, epoch_millis: self.epoch_millis }
    }
}

/// The notice that a watch found its topic.
#[derive(Clone, Debug)]
pub struct ChangeEventPayload {
    /// When the fetch that showed the topic completed.
    pub completion_date: String,
    /// The topic of the watch that emitted the event.
    pub topic: String,
}

/// A change event as plain values.
pub struct EventModel {
    pub completion_date: Seq<char>,
    pub topic: Seq<char>,
}

impl View for ChangeEventPayload {
    type V = EventModel;

    open spec fn view(&self) -> EventModel {
        EventModel { completion_date: self.completion_date@, topic: self.topic@ }
    }
}

/// What an optional event holds, as plain values.
pub open spec fn emitted_model(emitted: Option<ChangeEventPayload>) -> Option<EventModel> {
    match emitted {
        Some(event) => Some(event@),
        None => None,
    }
}

impl ChangeEventPayload {
    /// The event that a watch on `topic` emits for a fetch that completed at
    /// `now`.
    pub fn at(now: &ClockReading, topic: &str) -> (event: ChangeEventPayload)
        ensures
            event@ == (EventModel { completion_date: now@.text, topic: topic@ }),
    {
        ChangeEventPayload {
            completion_date: now.text.clone(),
            topic: String::from_str(topic),
        }
    }
}

} // verus!
