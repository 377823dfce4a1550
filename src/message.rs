//! The wire form of a telemetry event: its topic and its JSON envelope.

use vstd::prelude::*;
use vstd::string::*;

verus! {

/// The character of one decimal digit.
pub open spec fn digit_char(d: nat) -> char {
    seq!['0', '1', '2', '3', '4', '5', '6', '7', '8', '9'][(d % 10) as int]
}

/// Plain decimal text of a natural number, most significant digit first,
/// without sign or leading zeros.
pub open spec fn decimal(n: nat) -> Seq<char>
    decreases n,
{
    if n < 10 {
        seq![digit_char(n)]
    } else {
        decimal(n / 10).push(digit_char(n % 10))
    }
}

/// The full topic of an event: `robots/<robot>/<topic>`.
pub open spec fn full_topic_of(robot: Seq<char>, topic: Seq<char>) -> Seq<char> {
    "robots/"@ + robot + "/"@ + topic
}

/// The JSON envelope of an event: the three counters, then the payload's own
/// JSON text under `data`.
pub open spec fn envelope_of(counters: Counters, data: Seq<char>) -> Seq<char> {
    "{\"frame_number\":"@ + decimal(counters.frame_number as nat) + ",\"video_timestamp\":"@
        + decimal(counters.video_timestamp as nat) + ",\"inference_step\":"@ + decimal(
        counters.inference_step as nat,
    ) + ",\"data\":"@ + data + "}"@
}

/// A snapshot of the synchronisation counters taken for one event.
#[derive(Clone, Copy, Debug, PartialEq, Eq, Structural)]
pub struct Counters {
    pub frame_number: u64,
    pub video_timestamp: u64,
    pub inference_step: u64,
}

/// Delivery guarantee asked of the broker.
#[derive(Clone, Copy, Debug, PartialEq, Eq, Structural)]
pub enum Delivery {
    AtMostOnce,
    AtLeastOnce,
    ExactlyOnce,
}

/// An event ready for the transport: where it goes, how, and its bytes.
#[derive(Debug)]
pub struct Outgoing {
    pub topic: String,
    pub delivery: Delivery,
    pub retain: bool,
    pub body: String,
}

/// Relies on serde_json's `Number` display: an unsigned integer is written by
/// `itoa` as its plain decimal digits.
#[verifier::external_body]
fn json_u64(n: u64) -> (r: String)
    ensures
        r@ == decimal(n as nat),
{
    serde_json::Number::from(n).to_string()
}

/// `robots/<robot_id>/<topic>`.
pub fn full_topic(robot_id: &str, topic: &str) -> (r: String)
    ensures
        r@ == full_topic_of(robot_id@, topic@),
{
    let mut r = String::from_str("robots/");
    r.append(robot_id);
    r.append("/");
    r.append(topic);
    r
}

/// The JSON envelope `{"frame_number":..,"video_timestamp":..,"inference_step":..,"data":..}`,
/// where `data` is the payload already written as JSON text.
pub fn envelope(counters: Counters, data: &str) -> (r: String)
    ensures
        r@ == envelope_of(counters, data@),
{
    let mut r = String::from_str("{\"frame_number\":");
    let s = json_u64(counters.frame_number);
    r.append(s.as_str());
    r.append(",\"video_timestamp\":");
    let s = json_u64(counters.video_timestamp);
    r.append(s.as_str());
    r.append(",\"inference_step\":");
    let s = json_u64(counters.inference_step);
    r.append(s.as_str());
    r.append(",\"data\":");
    r.append(data);
    r.append("}");
    r
}

/// The event that carries `data` (JSON text) under `topic` for robot
/// `robot_id`, stamped with `counters`: sent at least once and not retained.
pub fn frame_message(robot_id: &str, topic: &str, counters: Counters, data: &str) -> (m: Outgoing)
    ensures
        m.topic@ == full_topic_of(robot_id@, topic@),
        m.body@ == envelope_of(counters, data@),
        m.delivery == Delivery::AtLeastOnce,
        !m.retain,
{
    Outgoing {
        topic: full_topic(robot_id, topic),
        delivery: Delivery::AtLeastOnce,
        retain: false,
        body: envelope(counters, data),
    }
}

} // verus!
