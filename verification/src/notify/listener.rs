//! The reaction to one raw notification: decode, resolve, dispatch.
use crate::notify::dispatch::{accounts_for, dispatch, Attempt};
use crate::notify::json::{parses_as, Json};
use crate::notify::notif::{decoded, reads_as, Notification, NotifyError, Severity};
use crate::notify::payload::Payload;
use crate::notify::registry::Registry;
use vstd::prelude::*;

verus! {

/// How the reaction to one raw notification ended.
#[derive(Debug)]
pub enum Outcome {
    /// It was decoded and offered to its audience.
    Dispatched(Vec<Attempt>),
    /// It was dropped; the listener goes on with the next.
    Dropped(NotifyError),
    /// The listener must stop and report the error.
    Halted(NotifyError),
}

impl Outcome {
    /// Whether the listener goes on to the next notification.
    pub open spec fn spec_continues(self) -> bool {
        !(self is Halted)
    }

    /// Whether the listener goes on to the next notification.
    pub fn continues(&self) -> (go_on: bool)
        ensures
            go_on == self.spec_continues(),
    {
        match self {
            Outcome::Halted(_) => false,
            _ => true,
        }
    }
}

/// What is owed for a raw notification on topic `name`, given the outcome
/// of reading its payload against that topic's shape, when `connected` are
/// the users in the registry: a dispatch to the audience where it decodes,
/// and the error otherwise, which halts the listener or not by its
/// severity.
pub open spec fn reaction_to(
    outcome: Outcome,
    name: Seq<char>,
    parsed: Option<Payload>,
    connected: Set<u64>,
) -> bool {
    match decoded(name, parsed) {
        Ok(pair) => outcome matches Outcome::Dispatched(attempts) && accounts_for(
            attempts@,
            pair.1,
            connected,
        ),
        Err(e) => match e.spec_severity() {
            Severity::Halt => outcome == Outcome::Halted(e),
            Severity::Skip => outcome == Outcome::Dropped(e),
        },
    }
}

/// What is owed for a raw notification on topic `name` whose payload is
/// the JSON value `json` (`None`: it is not JSON), when `connected` are the
/// users in the registry.
pub open spec fn reaction(
    outcome: Outcome,
    name: Seq<char>,
    json: Option<Json>,
    connected: Set<u64>,
) -> bool {
    exists|parsed: Option<Payload>| #[trigger]
        reads_as(name, json, parsed) && reaction_to(outcome, name, parsed, connected)
}

/// What is owed for a raw notification on topic `name` with the payload
/// `payload`, when `connected` are the users in the registry: what is owed
/// for the JSON value that the payload is.
pub open spec fn reaction_to_text(
    outcome: Outcome,
    name: Seq<char>,
    payload: Seq<char>,
    connected: Set<u64>,
) -> bool {
    exists|json: Option<Json>| #[trigger]
        parses_as(payload, json) && reaction(outcome, name, json, connected)
}

/// Reacts to one raw notification: decodes it, works out its audience and
/// offers the event to each connected member.
pub fn process(registry: &Registry, name: &str, payload: &str) -> (outcome: Outcome)
    ensures
        reaction_to_text(outcome, name@, payload@, registry.users()),
{
    let json = Json::parse(payload);
    let ghost parsed = json;
    let outcome = react(registry, name, json);
    proof {
        assert(parses_as(payload@, parsed) && reaction(outcome, name@, parsed, registry.users()));
    }
    outcome
}

/// Reacts to one raw notification whose payload was parsed as JSON
/// (`None`: it is not JSON).
pub fn react(registry: &Registry, name: &str, json: Option<Json>) -> (outcome: Outcome)
    ensures
        reaction(outcome, name@, json, registry.users()),
{
    let loaded = Notification::decode(name, json);
    let ghost parsed = choose|parsed: Option<Payload>| #[trigger]
        reads_as(name@, json, parsed) && Notification::owed(name@, parsed, loaded);
    let outcome = match loaded {
        Ok(notification) => Outcome::Dispatched(dispatch(registry, &notification)),
        Err(e) => match e.severity() {
            Severity::Halt => Outcome::Halted(e),
            Severity::Skip => Outcome::Dropped(e),
        },
    };
    proof {
        assert(reads_as(name@, json, parsed) && reaction_to(outcome, name@, parsed, registry.users()));
    }
    outcome
}

/// A raw notification as the feed yields it: the topic it was published
/// on and its payload, both as text.
#[derive(Debug, Clone)]
pub struct RawNotification {
    pub topic: String,
    pub payload: String,
}

/// What the feed hands the listener next.
#[derive(Debug, Clone)]
pub enum FeedEvent {
    /// A notification arrived.
    Arrived(RawNotification),
    /// The connection to the store failed; the text says how.
    Lost(String),
    /// The feed ended.
    Ended,
}

/// Why the listener stops.
#[derive(Debug, Clone)]
pub enum Stop {
    /// The feed ended; nothing is amiss.
    Ended,
    /// The connection to the store failed. The listener does not heal
    /// itself: whoever started it is told and may start it again.
    Lost(String),
    /// A notification could not be decoded and its error is one that
    /// halts.
    Fatal(NotifyError),
}

/// What the listener does after an event of the feed.
#[derive(Debug)]
pub enum Step {
    /// Go on to the next event; the notification was dispatched or dropped.
    Continue(Outcome),
    /// Stop listening.
    Stop(Stop),
}

impl Stop {
    /// Whether the caller of the listener is to be told of an error.
    pub open spec fn spec_is_error(self) -> bool {
        !(self is Ended)
    }

    /// Whether the caller of the listener is to be told of an error.
    pub fn is_error(&self) -> (error: bool)
        ensures
            error == self.spec_is_error(),
    {
        match self {
            Stop::Ended => false,
            _ => true,
        }
    }
}

/// The step that follows the reaction to a notification: a halt stops the
/// listener, anything else lets it go on.
pub open spec fn step_after(outcome: Outcome) -> Step {
    match outcome {
        Outcome::Halted(e) => Step::Stop(Stop::Fatal(e)),
        other => Step::Continue(other),
    }
}

/// What is owed for an event of the feed when `connected` are the users in
/// the registry: for a notification, the step after the reaction to it; a
/// stop when the feed is lost or has ended.
pub open spec fn step_owed(step: Step, event: FeedEvent, connected: Set<u64>) -> bool {
    match event {
        FeedEvent::Arrived(raw) => exists|outcome: Outcome| #[trigger]
            reaction_to_text(outcome, raw.topic@, raw.payload@, connected) && step == step_after(
                outcome,
            ),
        FeedEvent::Lost(how) => step == Step::Stop(Stop::Lost(how)),
        FeedEvent::Ended => step == Step::Stop(Stop::Ended),
    }
}

/// Takes one event of the feed: reacts to a notification, and decides
/// whether the listener goes on.
pub fn step(registry: &Registry, event: FeedEvent) -> (next: Step)
    ensures
        step_owed(next, event, registry.users()),
{
    match event {
        FeedEvent::Arrived(raw) => {
            let outcome = process(registry, raw.topic.as_str(), raw.payload.as_str());
            let ghost reached = outcome;
            let next = match outcome {
                Outcome::Halted(e) => Step::Stop(Stop::Fatal(e)),
                other => Step::Continue(other),
            };
            proof {
                assert(reaction_to_text(reached, raw.topic@, raw.payload@, registry.users()) && next
                    == step_after(reached));
            }
            next
        },
        FeedEvent::Lost(how) => Step::Stop(Stop::Lost(how)),
        FeedEvent::Ended => Step::Stop(Stop::Ended),
    }
}

} // verus!
