//! The condition of a watch: does the topic occur, letter for letter, in the
//! fetched text?

use vstd::prelude::*;
use crate::event::{fetch_model, FetchError};

verus! {

/// The topic stands in `body` at offset `at`, character by character.
pub open spec fn occurs_at(body: Seq<char>, topic: Seq<char>, at: int) -> bool {
    &&& 0 <= at
    &&& at + topic.len() <= body.len()
    &&& body.subrange(at, at + topic.len()) == topic
}

/// The topic is a contiguous part of `body`. No case folding, no normalisation.
pub open spec fn occurs_in(body: Seq<char>, topic: Seq<char>) -> bool {
    exists|at: int| occurs_at(body, topic, at)
}

/// The empty topic occurs in every body, the empty one included.
pub proof fn lemma_empty_topic_occurs(body: Seq<char>)
    ensures
        occurs_in(body, Seq::<char>::empty()),
{
    assert(body.subrange(0, 0) =~= Seq::<char>::empty());
    assert(occurs_at(body, Seq::<char>::empty(), 0));
}

/// The characters of a string slice, in order.
fn chars_of(text: &str) -> (out: Vec<char>)
    ensures
        out@ == text@,
{
    let mut out: Vec<char> = Vec::new();
    for c in it: text.chars()
        invariant
            it.seq() == text@,
            out@ == it.seq().take(it.index() as int),
    {
        out.push(c);
    }
    out
}

/// Whether `topic` stands in `body` at offset `at`.
fn matches_at(body: &Vec<char>, topic: &Vec<char>, at: usize) -> (found: bool)
    requires
        at + topic.len() <= body.len(),
    ensures
        found == occurs_at(body@, topic@, at as int),
{
    let mut k: usize = 0;
    while k < topic.len()
        invariant
            k <= topic.len(),
            at + topic.len() <= body.len(),
            forall|j: int| 0 <= j < k ==> body@[at + j] == topic@[j],
        decreases topic.len() - k,
    {
        if body[at + k] != topic[k] {
            proof {
                let part = body@.subrange(at as int, at + topic.len());
                assert(part[k as int] == body@[at + k]);
            }
            return false;
        }
        k += 1;
    }
    assert(body@.subrange(at as int, at + topic.len()) =~= topic@);
    true
}

/// Whether `topic` is a contiguous part of `body`, over their characters.
pub fn sequence_contains(body: &Vec<char>, topic: &Vec<char>) -> (found: bool)
    ensures
        found == occurs_in(body@, topic@),
{
    if topic.len() > body.len() {
        return false;
    }
    let last: usize = body.len() - topic.len();
    let mut at: usize = 0;
    loop
        invariant
            last == body.len() - topic.len(),
            at <= last,
            forall|j: int| 0 <= j < at ==> !occurs_at(body@, topic@, j),
        decreases last - at,
    {
        if matches_at(body, topic, at) {
            return true;
        }
        if at == last {
            return false;
        }
        at += 1;
    }
}

/// Decides the condition of a watch: `true` exactly when `topic` occurs in
/// `body` as a literal substring. The empty topic occurs in every body.
pub fn topic_occurs_in(body: &str, topic: &str) -> (satisfied: bool)
    ensures
        satisfied == occurs_in(body@, topic@),
{
    let body_chars = chars_of(body);
    let topic_chars = chars_of(topic);
    sequence_contains(&body_chars, &topic_chars)
}

/// What one poll says of the condition, given what the fetch yielded: the
/// fetch's own failure, or whether the topic occurs in the fetched text.
pub open spec fn condition_of(fetched: Result<Seq<char>, FetchError>, topic: Seq<char>) -> Result<
    bool,
    FetchError,
> {
    match fetched {
        Ok(body) => Ok(occurs_in(body, topic)),
        Err(error) => Err(error),
    }
}

/// Checks the condition of a watch against the outcome of one fetch. A failed
/// fetch is handed on as it came; a fetched text is searched for the topic.
pub fn change_condition_successfied(fetched: &Result<String, FetchError>, topic: &str) -> (checked:
    Result<bool, FetchError>)
    ensures
        checked == condition_of(fetch_model(*fetched), topic@),
{
    match fetched {
        Ok(observe_current_result) => Ok(topic_occurs_in(observe_current_result.as_str(), topic)),
        Err(error) => Err(*error),
    }
}

} // verus!
