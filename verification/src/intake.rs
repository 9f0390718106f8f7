//! The intake: what the service answers to its two requests, and what a
//! request to observe sets going.

use vstd::prelude::*;
use crate::scheduler::{covers_request, run_change_observation};
use crate::watcher::ResourceWatcher;

verus! {

/// The time between two polls of a watch that came in through the intake.
pub const DEFAULT_INTERVAL_MILLIS: u64 = 1000;

/// A request to observe: the topic to look for and the resources to look in.
#[derive(Clone, Debug)]
pub struct ProbabilityEventJSONPayload {
    pub prediction_topic: String,
    pub resource_urls: Vec<String>,
}

/// The answer to a request to observe.
#[derive(Debug)]
pub struct ObservationStarted {
    /// The text of the reply.
    pub reply: String,
    /// The watchers that the request set up, one per URL.
    pub watchers: Vec<ResourceWatcher>,
}

/// The reply to a request to observe `topic`.
pub open spec fn event_reply(topic: Seq<char>) -> Seq<char> {
    "event topic: "@ + topic
}

/// The reply to a request for the version of the interface.
pub open spec fn version_reply() -> Seq<char> {
    "api version: 1"@
}

/// Takes a request to observe. Sets up one watcher per URL of the request,
/// with the request's topic and the default interval, and replies with the
/// topic. Nothing is checked: an empty topic and an empty list pass as they
/// are.
pub fn post_observe_event(event_data: &ProbabilityEventJSONPayload) -> (started: ObservationStarted)
    ensures
        started.reply@ == event_reply(event_data.prediction_topic@),
        covers_request(
            started.watchers@,
            DEFAULT_INTERVAL_MILLIS,
            event_data.resource_urls@,
            event_data.prediction_topic@,
        ),
{
    let watchers = run_change_observation(
        DEFAULT_INTERVAL_MILLIS,
        event_data.resource_urls.clone(),
        event_data.prediction_topic.clone(),
    );
    let reply = String::from_str("event topic: ").concat(event_data.prediction_topic.as_str());
    ObservationStarted { reply, watchers }
}

/// The version of the interface, as the service replies it.
pub fn get_api_version() -> (reply: String)
    ensures
        reply@ == version_reply(),
{
    String::from_str("api version: 1")
}

} // verus!
