use vstd::prelude::*;

use crate::parse::{dsmr_payload_result, kamstrup_payload_result, parse_dsmr_json, parse_kamstrup};
use crate::records::{normalize_dsmr, normalize_heat, IngestError, Reading};
use crate::store::write_reading;

verus! {

/// The topic of the live electricity feed.
pub const DSMR_TOPIC: &'static str = "dsmr/measurements";

/// The topic of the live heat feed.
pub const KAMSTRUP_TOPIC: &'static str = "kamstrup/values";

/// Where a published message goes.
#[derive(Clone, Copy, Debug, PartialEq, Eq, Structural)]
pub enum Route {
    Electricity,
    Heat,
    Unknown,
}

/// An event of the live transport, as the driver sees it.
#[derive(Debug)]
pub enum LiveEvent {
    Publish { topic: String, payload: Vec<u8> },
    ConnAck { session_present: bool },
    Other,
    Stop,
}

/// What the driver did with an event, or asks the transport to do.
#[derive(Clone, Copy, Debug, PartialEq, Eq, Structural)]
pub enum LiveAction {
    /// Subscribe to both topics, delivery at least once.
    Subscribe,
    Stored,
    Rejected(IngestError),
    UnknownTopic,
    Ignored,
    Stop,
}

pub open spec fn route_of(topic: Seq<char>) -> Route {
    if topic == DSMR_TOPIC@ {
        Route::Electricity
    } else if topic == KAMSTRUP_TOPIC@ {
        Route::Heat
    } else {
        Route::Unknown
    }
}

/// A parse error rejects the message; a record that reads is stored, or
/// rejected by the store.
pub open spec fn parsed_fits<T>(parsed: Result<T, IngestError>, a: LiveAction) -> bool {
    match parsed {
        Err(e) => a == LiveAction::Rejected(e),
        Ok(_) => a == LiveAction::Stored || a == LiveAction::Rejected(IngestError::Storage),
    }
}

/// The driver's answer to a message published on `topic`.
pub open spec fn publish_fits(topic: Seq<char>, payload: Seq<u8>, a: LiveAction) -> bool {
    match route_of(topic) {
        Route::Electricity => parsed_fits(dsmr_payload_result(payload), a),
        Route::Heat => parsed_fits(kamstrup_payload_result(payload), a),
        Route::Unknown => a == LiveAction::UnknownTopic,
    }
}

/// The driver's answer to each kind of event.
pub open spec fn action_fits(e: LiveEvent, a: LiveAction) -> bool {
    match e {
        LiveEvent::Publish { topic, payload } => publish_fits(topic@, payload@, a),
        LiveEvent::ConnAck { session_present } => a == if session_present {
            LiveAction::Ignored
        } else {
            LiveAction::Subscribe
        },
        LiveEvent::Other => a == LiveAction::Ignored,
        LiveEvent::Stop => a == LiveAction::Stop,
    }
}

/// Picks the record format of a topic.
pub fn route_topic(topic: &str) -> (r: Route)
    ensures
        r == route_of(topic@),
{
    let t = topic.to_owned();
    if t == DSMR_TOPIC.to_owned() {
        Route::Electricity
    } else if t == KAMSTRUP_TOPIC.to_owned() {
        Route::Heat
    } else {
        Route::Unknown
    }
}

fn stored_or_rejected(res: Result<(), IngestError>) -> (a: LiveAction)
    requires
        res is Ok || res == Err::<(), IngestError>(IngestError::Storage),
    ensures
        a == LiveAction::Stored || a == LiveAction::Rejected(IngestError::Storage),
{
    match res {
        Ok(()) => LiveAction::Stored,
        Err(e) => LiveAction::Rejected(e),
    }
}

/// Parses a published message by its topic and stores it, each message in a
/// statement of its own.
pub fn handle_publish(conn: &mut rusqlite::Connection, topic: &str, payload: &[u8]) -> (a: LiveAction)
    ensures
        publish_fits(topic@, payload@, a),
{
    match route_topic(topic) {
        Route::Electricity => match parse_dsmr_json(payload) {
            Ok(m) => stored_or_rejected(
                write_reading(conn, &Reading::Electricity(normalize_dsmr(&m))),
            ),
            Err(e) => LiveAction::Rejected(e),
        },
        Route::Heat => match parse_kamstrup(payload) {
            Ok(v) => stored_or_rejected(write_reading(conn, &Reading::Heat(normalize_heat(&v)))),
            Err(e) => LiveAction::Rejected(e),
        },
        Route::Unknown => LiveAction::UnknownTopic,
    }
}

/// Handles one event of the live transport.
pub fn handle_event(conn: &mut rusqlite::Connection, e: &LiveEvent) -> (a: LiveAction)
    ensures
        action_fits(*e, a),
{
    match e {
        LiveEvent::Publish { topic, payload } => handle_publish(conn, topic.as_str(), payload.as_slice()),
        LiveEvent::ConnAck { session_present } => if *session_present {
            LiveAction::Ignored
        } else {
            LiveAction::Subscribe
        },
        LiveEvent::Other => LiveAction::Ignored,
        LiveEvent::Stop => LiveAction::Stop,
    }
}

/// Handles events in order until a stop event (included) or the end.
pub fn run_live(conn: &mut rusqlite::Connection, events: &Vec<LiveEvent>) -> (r: Vec<LiveAction>)
    ensures
        r@.len() <= events@.len(),
        forall|i: int| 0 <= i < r@.len() ==> action_fits(#[trigger] events@[i], r@[i]),
        forall|i: int| 0 <= i < r@.len() - 1 ==> !(#[trigger] events@[i] is Stop),
        r@.len() == events@.len() || (r@.len() > 0 && events@[r@.len() - 1] is Stop),
{
    let mut out: Vec<LiveAction> = Vec::new();
    let mut i: usize = 0;
    while i < events.len()
        invariant
            i <= events@.len(),
            out@.len() == i,
            forall|j: int| 0 <= j < i ==> action_fits(#[trigger] events@[j], out@[j]),
            forall|j: int| 0 <= j < i ==> !(#[trigger] events@[j] is Stop),
        decreases events@.len() - i,
    {
        let a = handle_event(conn, &events[i]);
        out.push(a);
        if let LiveEvent::Stop = &events[i] {
            return out;
        }
        i = i + 1;
    }
    out
}

} // verus!
