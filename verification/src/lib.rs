//! Change observation for remote resources.
//!
//! A watch pairs one resource URL with a topic, a literal piece of text. Each
//! time the resource is fetched, the watcher decides whether the topic occurs
//! in what came back and, if so, emits a change event that carries the topic
//! and the moment the fetch completed.
//!
//! The library holds the decisions: the containment test, the watcher's state
//! machine, the fan-out of one request into one watcher per URL, and the text
//! of the intake replies. Waiting, fetching and serving are left to the caller.

pub mod condition;
pub mod event;
mod clock;
pub mod sink;
pub mod watcher;
pub mod scheduler;
pub mod intake;
pub mod history;
pub mod fleet;
