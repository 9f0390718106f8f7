//! The scheduler: turns one request, a topic and a list of URLs, into one
//! watcher per URL.

use vstd::prelude::*;
use crate::watcher::{ResourceWatch, ResourceWatcher, WatchModel, WatcherModel, WatcherState};

verus! {

/// A fresh watcher on `url`, as plain values: it waits for its first tick.
pub open spec fn scheduled_watcher(url: Seq<char>, topic: Seq<char>, interval_millis: u64)
    -> WatcherModel {
    WatcherModel {
        watch: WatchModel { url, topic, interval_millis },
        state: WatcherState::Scheduled,
    }
}

/// The watchers in `watchers` are those of a request for `topic` on `urls`:
/// as many as there are URLs, the i-th on the i-th URL, each with the
/// request's topic and interval, each waiting for its first tick. A URL that
/// is listed twice has two watchers.
pub open spec fn covers_request(
    watchers: Seq<ResourceWatcher>,
    interval_millis: u64,
    urls: Seq<String>,
    topic: Seq<char>,
) -> bool {
    &&& watchers.len() == urls.len()
    &&& forall|i: int|
        0 <= i < urls.len() ==> (#[trigger] watchers[i])@ == scheduled_watcher(
            urls[i]@,
            topic,
            interval_millis,
        )
}

/// Starts the observation of `resource_urls` for `observation_topic`: makes
/// one watcher per URL, in the order of the URLs and without leaving out
/// duplicates, all with the same topic and interval. The watchers are handed
/// back for the caller to drive, each on its own.
pub fn run_change_observation(
    time_interval_in_mills: u64,
    resource_urls: Vec<String>,
    observation_topic: String,
) -> (watchers: Vec<ResourceWatcher>)
    ensures
        covers_request(watchers@, time_interval_in_mills, resource_urls@, observation_topic@),
{
    let mut watchers: Vec<ResourceWatcher> = Vec::new();
    let mut next: usize = 0;
    while next < resource_urls.len()
        invariant
            next <= resource_urls.len(),
            watchers.len() == next,
            forall|i: int|
                0 <= i < next ==> (#[trigger] watchers[i])@ == scheduled_watcher(
                    resource_urls[i]@,
                    observation_topic@,
                    time_interval_in_mills,
                ),
        decreases resource_urls.len() - next,
    {
        let watch = ResourceWatch {
            url: resource_urls[next].clone(),
            topic: observation_topic.clone(),
            interval_millis: time_interval_in_mills,
        };
        watchers.push(ResourceWatcher::new(watch));
        next += 1;
    }
    watchers
}

} // verus!
