use change_observer::event::{ChangeEventPayload, ClockReading, FetchError};
use change_observer::sink::notify_runtime_contract;
use change_observer::watcher::{
    PollOutcome, PollReport, ResourceWatch, ResourceWatcher, WatcherAction, WatcherState,
};

fn watch_on(url: &str, topic: &str) -> ResourceWatch {
    ResourceWatch { url: String::from(url), topic: String::from(topic), interval_millis: 1000 }
}

fn reading(text: &str, epoch_millis: i64) -> ClockReading {
    ClockReading { text: String::from(text), epoch_millis }
}

fn fetching(url: &str, topic: &str) -> ResourceWatcher {
    let mut watcher = ResourceWatcher::new(watch_on(url, topic));
    watcher.on_tick();
    watcher
}

fn observed(outcome: PollOutcome) -> PollReport {
    match outcome {
        PollOutcome::Observed(report) => report,
        other => panic!("expected an observation, got {:?}", other),
    }
}

#[test]
fn new_watcher_is_scheduled_and_keeps_its_watch() {
    let watcher = ResourceWatcher::new(ResourceWatch {
        url: String::from("http://good"),
        topic: String::from("T"),
        interval_millis: 250,
    });
    assert_eq!(watcher.state(), WatcherState::Scheduled);
    assert_eq!(watcher.watch().url, "http://good");
    assert_eq!(watcher.watch().topic, "T");
    assert_eq!(watcher.watch().interval_millis, 250);
}

#[test]
fn tick_starts_a_fetch_of_the_watched_url() {
    let mut watcher = ResourceWatcher::new(watch_on("http://good", "T"));
    match watcher.on_tick() {
        WatcherAction::Fetch(url) => assert_eq!(url, "http://good"),
        other => panic!("expected a fetch, got {:?}", other),
    }
    assert_eq!(watcher.state(), WatcherState::Fetching);
}

#[test]
fn tick_during_a_fetch_starts_no_second_fetch() {
    let mut watcher = fetching("http://good", "T");
    assert!(matches!(watcher.on_tick(), WatcherAction::Wait));
    assert_eq!(watcher.state(), WatcherState::Fetching);
}

#[test]
fn satisfying_fetch_emits_event_with_topic_and_completion_date() {
    let mut watcher = fetching("http://good", "polkability");
    let outcome = watcher.conclude_poll(
        Ok(String::from("the polkability result is ready")),
        reading("2024-05-06T07:08:09.123+02:00", 1714972089123),
    );
    let report = observed(outcome);
    assert!(report.satisfied);
    assert_eq!(report.observed_at.text, "2024-05-06T07:08:09.123+02:00");
    assert_eq!(report.observed_at.epoch_millis, 1714972089123);
    let event = report.emitted.expect("an event is emitted");
    assert_eq!(event.completion_date, "2024-05-06T07:08:09.123+02:00");
    assert_eq!(event.topic, "polkability");
    assert_eq!(watcher.state(), WatcherState::Scheduled);
}

#[test]
fn unsatisfying_fetch_emits_nothing_and_reschedules() {
    let mut watcher = fetching("http://good", "polkability");
    let outcome = watcher.conclude_poll(
        Ok(String::from("nothing here")),
        reading("2024-05-06T07:08:09.123Z", 1714979289123),
    );
    let report = observed(outcome);
    assert!(!report.satisfied);
    assert!(report.emitted.is_none());
    assert_eq!(report.observed_at.text, "2024-05-06T07:08:09.123Z");
    assert_eq!(watcher.state(), WatcherState::Scheduled);
}

#[test]
fn empty_topic_is_satisfied_by_any_fetched_text() {
    let mut watcher = fetching("http://good", "");
    let report = observed(watcher.conclude_poll(Ok(String::new()), reading("t", 5)));
    assert!(report.satisfied);
    let event = report.emitted.expect("an event is emitted");
    assert_eq!(event.topic, "");
    assert_eq!(event.completion_date, "t");
}

#[test]
fn watcher_keeps_emitting_on_every_satisfying_poll() {
    let mut watcher = ResourceWatcher::new(watch_on("http://good", "T"));
    let mut dates: Vec<String> = Vec::new();
    let mut instant: i64 = 1000;
    for text in ["first", "second", "third"] {
        assert!(matches!(watcher.on_tick(), WatcherAction::Fetch(_)));
        let report = observed(watcher.conclude_poll(Ok(String::from("T")), reading(text, instant)));
        let event = report.emitted.expect("an event is emitted");
        assert_eq!(event.topic, "T");
        dates.push(event.completion_date);
        instant += 1000;
    }
    assert_eq!(dates, vec!["first", "second", "third"]);
    assert_eq!(watcher.state(), WatcherState::Scheduled);
}

#[test]
fn emission_follows_the_most_recent_fetch_only() {
    let mut watcher = ResourceWatcher::new(watch_on("http://good", "T"));
    watcher.on_tick();
    assert!(observed(watcher.conclude_poll(Ok(String::from("has T")), reading("a", 1))).emitted.is_some());
    watcher.on_tick();
    assert!(observed(watcher.conclude_poll(Ok(String::from("gone")), reading("b", 2))).emitted.is_none());
    watcher.on_tick();
    assert!(observed(watcher.conclude_poll(Ok(String::from("T again")), reading("c", 3))).emitted.is_some());
}

#[test]
fn failed_fetch_terminates_the_watcher() {
    let mut watcher = fetching("bad://x", "T");
    let outcome = watcher.conclude_poll(Err(FetchError::Transport), reading("a", 1));
    assert!(matches!(outcome, PollOutcome::Failed(FetchError::Transport)));
    assert_eq!(watcher.state(), WatcherState::Terminated);
}

#[test]
fn unreadable_body_terminates_the_watcher() {
    let mut watcher = fetching("http://binary", "T");
    let outcome = watcher.conclude_poll(Err(FetchError::Body), reading("a", 1));
    assert!(matches!(outcome, PollOutcome::Failed(FetchError::Body)));
    assert_eq!(watcher.state(), WatcherState::Terminated);
}

#[test]
fn terminated_watcher_emits_nothing_more() {
    let mut watcher = fetching("bad://x", "T");
    watcher.conclude_poll(Err(FetchError::Transport), reading("a", 1));
    for _ in 0..3 {
        assert!(matches!(watcher.on_tick(), WatcherAction::Halt));
        assert_eq!(watcher.state(), WatcherState::Terminated);
        let outcome = watcher.conclude_poll(Ok(String::from("T")), reading("b", 2));
        assert!(matches!(outcome, PollOutcome::Ignored));
        assert_eq!(watcher.state(), WatcherState::Terminated);
        assert!(matches!(watcher.on_fetched(Ok(String::from("T"))), PollOutcome::Ignored));
    }
    assert_eq!(watcher.watch().topic, "T");
}

#[test]
fn fetch_result_without_a_pending_fetch_is_ignored() {
    let mut watcher = ResourceWatcher::new(watch_on("http://good", "T"));
    let outcome = watcher.conclude_poll(Ok(String::from("T")), reading("a", 1));
    assert!(matches!(outcome, PollOutcome::Ignored));
    assert_eq!(watcher.state(), WatcherState::Scheduled);
    let failed = watcher.conclude_poll(Err(FetchError::Transport), reading("a", 1));
    assert!(matches!(failed, PollOutcome::Ignored));
    assert_eq!(watcher.state(), WatcherState::Scheduled);
}

#[test]
fn failure_of_one_watcher_leaves_its_sibling_polling() {
    let mut bad = ResourceWatcher::new(watch_on("bad://x", "T"));
    let mut good = ResourceWatcher::new(watch_on("http://good", "T"));
    bad.on_tick();
    good.on_tick();
    assert!(matches!(
        bad.conclude_poll(Err(FetchError::Transport), reading("a", 1)),
        PollOutcome::Failed(FetchError::Transport)
    ));
    assert_eq!(good.state(), WatcherState::Fetching);
    let report = observed(good.conclude_poll(Ok(String::from("T")), reading("b", 2)));
    assert!(report.emitted.is_some());
    assert!(matches!(bad.on_tick(), WatcherAction::Halt));
    match good.on_tick() {
        WatcherAction::Fetch(url) => assert_eq!(url, "http://good"),
        other => panic!("expected a fetch, got {:?}", other),
    }
}

#[test]
fn on_fetched_stamps_the_event_with_the_local_clock() {
    let mut watcher = fetching("http://good", "polkability");
    let report = observed(watcher.on_fetched(Ok(String::from("polkability"))));
    assert!(report.satisfied);
    let event = report.emitted.expect("an event is emitted");
    assert_eq!(event.topic, "polkability");
    assert_eq!(event.completion_date, report.observed_at.text);
    let parsed = chrono::DateTime::parse_from_rfc3339(&event.completion_date)
        .expect("the completion date is an RFC 3339 timestamp");
    assert_eq!(parsed.timestamp_millis(), report.observed_at.epoch_millis);
    assert_eq!(
        parsed.to_rfc3339_opts(chrono::SecondsFormat::Millis, true),
        event.completion_date
    );
    assert!(report.observed_at.epoch_millis > 1_600_000_000_000);
    assert_eq!(watcher.state(), WatcherState::Scheduled);
}

#[test]
fn on_fetched_reports_without_event_when_topic_is_absent() {
    let mut watcher = fetching("http://good", "polkability");
    let report = observed(watcher.on_fetched(Ok(String::from("nothing here"))));
    assert!(!report.satisfied);
    assert!(report.emitted.is_none());
    assert!(chrono::DateTime::parse_from_rfc3339(&report.observed_at.text).is_ok());
}

#[test]
fn on_fetched_terminates_on_a_failed_fetch() {
    let mut watcher = fetching("bad://x", "T");
    assert!(matches!(
        watcher.on_fetched(Err(FetchError::Transport)),
        PollOutcome::Failed(FetchError::Transport)
    ));
    assert_eq!(watcher.state(), WatcherState::Terminated);
}

#[test]
fn successive_emissions_do_not_go_back_in_time() {
    let mut watcher = ResourceWatcher::new(watch_on("http://good", "T"));
    let mut last: i64 = i64::MIN;
    for _ in 0..5 {
        watcher.on_tick();
        let report = observed(watcher.on_fetched(Ok(String::from("T"))));
        assert!(report.emitted.is_some());
        assert!(report.observed_at.epoch_millis >= last);
        last = report.observed_at.epoch_millis;
    }
}

#[test]
fn event_is_built_from_reading_and_topic() {
    let event = ChangeEventPayload::at(&reading("2024-01-01T00:00:00.000Z", 1704067200000), "T");
    assert_eq!(event.completion_date, "2024-01-01T00:00:00.000Z");
    assert_eq!(event.topic, "T");
}

#[test]
fn sink_accepts_an_event() {
    let event = ChangeEventPayload {
        completion_date: String::from("2024-01-01T00:00:00.000Z"),
        topic: String::from("polkability"),
    };
    notify_runtime_contract(&event);
    assert_eq!(event.topic, "polkability");
}

#[test]
fn each_watcher_emits_its_own_topic() {
    let mut first = fetching("http://a", "alpha");
    let mut second = fetching("http://b", "beta");
    let body = "alpha and beta";
    let from_first = observed(first.conclude_poll(Ok(String::from(body)), reading("a", 1)));
    let from_second = observed(second.conclude_poll(Ok(String::from(body)), reading("b", 2)));
    assert_eq!(from_first.emitted.expect("an event is emitted").topic, "alpha");
    assert_eq!(from_second.emitted.expect("an event is emitted").topic, "beta");
    assert_eq!(first.watch().topic, "alpha");
    assert_eq!(second.watch().topic, "beta");
}

#[test]
fn completion_dates_follow_the_readings_in_order() {
    let mut watcher = ResourceWatcher::new(watch_on("http://good", "T"));
    let readings = [("2024-01-01T00:00:00.000Z", 1704067200000), ("2024-01-01T00:00:01.000Z", 1704067201000), ("2024-01-01T00:00:01.000Z", 1704067201000)];
    let mut instants: Vec<i64> = Vec::new();
    for (text, millis) in readings {
        watcher.on_tick();
        let report = observed(watcher.conclude_poll(Ok(String::from("T")), reading(text, millis)));
        assert_eq!(report.emitted.expect("an event is emitted").completion_date, text);
        instants.push(report.observed_at.epoch_millis);
    }
    assert_eq!(instants, vec![1704067200000, 1704067201000, 1704067201000]);
}
