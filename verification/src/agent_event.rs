use vstd::prelude::*;

use core::time::Duration;

use chrono::{DateTime, Utc};
use serde::de::DeserializeOwned;
use serde::Serialize;
use serde_json::Value;

use crate::control::Control;
use crate::interaction::Interaction;

verus! {

/// A JSON value of `serde_json`, carried through unread.
#[verifier::external_type_specification]
#[verifier::external_body]
pub struct ExJsonValue(serde_json::Value);

/// An error of `serde_json`.
#[verifier::external_type_specification]
#[verifier::external_body]
pub struct ExJsonError(serde_json::Error);

/// A point in time in UTC: whole seconds since the Unix epoch and the
/// nanoseconds past that second, as `chrono`'s `timestamp` and
/// `timestamp_subsec_nanos` give them for a `DateTime<Utc>`.
#[derive(Debug, Clone, Copy, PartialEq, Eq, Structural)]
pub struct Timestamp {
    pub secs: i64,
    pub nanos: u32,
}

/// The whole seconds of the longest span that `chrono` can hold
/// (`TimeDelta::MAX`: `i64::MAX` milliseconds).
pub const MAX_DELTA_SECS: u64 = 9_223_372_036_854_775u64;

/// The nanoseconds past `MAX_DELTA_SECS` of the longest span that `chrono` can
/// hold.
pub const MAX_DELTA_NANOS: u32 = 807_000_000u32;

/// The last second since the Unix epoch that `chrono` can hold: the end of the
/// year 262,143.
pub const LAST_CLOCK_SECS: i64 = 8_210_298_412_799i64;

/// The whole seconds of a duration, as `Duration::as_secs` gives them.
pub uninterp spec fn duration_secs(d: Duration) -> u64;

/// The nanoseconds past the whole seconds of a duration, as
/// `Duration::subsec_nanos` gives them.
pub uninterp spec fn duration_subsec_nanos(d: Duration) -> u32;

/// `Duration::as_secs`: the whole seconds of the duration.
///
/// Claimed: the result is `duration_secs` of the duration.
#[verifier::external_body]
fn secs_of(d: &Duration) -> (r: u64)
    ensures
        r == duration_secs(*d),
{
    d.as_secs()
}

/// `Duration::subsec_nanos`: the fraction of a second of the duration, in
/// nanoseconds.
///
/// Claimed, as std documents it: the result is `duration_subsec_nanos` of the
/// duration, and less than one billion.
#[verifier::external_body]
fn subsec_nanos_of(d: &Duration) -> (r: u32)
    ensures
        r == duration_subsec_nanos(*d),
        r < 1_000_000_000,
{
    d.subsec_nanos()
}

/// Whether a timestamp is one that `Utc::now` can give: not before the Unix
/// epoch, not past `chrono`'s last second, and with fewer than a billion
/// nanoseconds.
pub open spec fn is_clock_reading(t: Timestamp) -> bool {
    0 <= t.secs <= LAST_CLOCK_SECS && t.nanos < 1_000_000_000
}

/// `Utc::now()`, as a `Timestamp`.
///
/// The reading depends on the clock, so only what holds of every reading is
/// claimed: `chrono` builds it from the system time since the Unix epoch
/// (panicking before 1970, which no argument controls), within its own range,
/// with the nanoseconds of a `std` duration.
#[verifier::external_body]
fn utc_now() -> (r: Timestamp)
    ensures
        is_clock_reading(r),
{
    let t: DateTime<Utc> = Utc::now();
    Timestamp { secs: t.timestamp(), nanos: t.timestamp_subsec_nanos() }
}

/// A timestamp plus a duration of `secs` seconds and `nanos` nanoseconds, the
/// nanoseconds carried into the seconds past a billion.
pub open spec fn timestamp_plus(t: Timestamp, secs: u64, nanos: u32) -> Timestamp {
    if t.nanos + nanos >= 1_000_000_000 {
        Timestamp { secs: (t.secs + secs + 1) as i64, nanos: (t.nanos + nanos - 1_000_000_000) as u32 }
    } else {
        Timestamp { secs: (t.secs + secs) as i64, nanos: (t.nanos + nanos) as u32 }
    }
}

/// Whether `chrono` can turn a duration into a span of its own
/// (`TimeDelta::from_std`); adding a longer duration to a time panics whatever
/// the time.
pub open spec fn chrono_accepts(d: Duration) -> bool {
    ||| duration_secs(d) < MAX_DELTA_SECS
    ||| duration_secs(d) == MAX_DELTA_SECS && duration_subsec_nanos(d) <= MAX_DELTA_NANOS
}

/// A timestamp plus a duration (see `timestamp_plus`).
pub open spec fn plus_duration(t: Timestamp, d: Duration) -> Timestamp {
    timestamp_plus(t, duration_secs(d), duration_subsec_nanos(d))
}

/// `serde_json::to_value`: the JSON value of a serialisable value.
///
/// Nothing is claimed of the result: it rests on the `Serialize` impl of `T`.
#[verifier::external_body]
fn json_to_value<T: Serialize>(content: T) -> (r: Result<Value, serde_json::Error>) {
    serde_json::to_value(content)
}

/// `serde_json::from_value`: the value of type `T` that a JSON value describes.
///
/// Nothing is claimed of the result: it rests on the `Deserialize` impl of `T`.
#[verifier::external_body]
fn json_from_value<T: DeserializeOwned>(v: Value) -> (r: Result<T, serde_json::Error>) {
    serde_json::from_value::<T>(v)
}

/// `Value::clone`, which `serde_json` derives: an equal copy of a JSON value.
pub assume_specification[ <serde_json::Value as Clone>::clone ](v: &serde_json::Value) -> (r:
    serde_json::Value)
    ensures
        r == *v,
;

/// An error of building an event or reading its content.
#[derive(Debug)]
pub enum AgentEventError {
    /// Converting to or from JSON failed.
    SerdeJson(serde_json::Error),
    /// The content is missing or is not plain content.
    ContentError(&'static str),
}

/// The content of an `AgentEvent`: plain content, a control instruction, or an
/// interaction.
#[derive(Debug, Clone, PartialEq, Eq)]
pub enum EventContent {
    /// The serialised content data of the event.
    Content(Value),
    /// A control instruction to the agent.
    Control(Control),
    /// An interaction with the agent.
    Interaction(Interaction),
}

/// An event the agent receives.
#[derive(Debug, Clone)]
pub struct AgentEvent {
    /// The ID of the event.
    pub id: u32,
    /// The name of the event.
    pub name: &'static str,
    /// The source of the event.
    pub source: &'static str,
    /// The content of the event.
    pub content: Option<EventContent>,
    /// The expiry time of the event.
    pub expiry_time: Option<Timestamp>,
}

impl AgentEvent {
    /// Creates an event with ID 0, without content or expiry time.
    pub fn new(name: &'static str, source: &'static str) -> (r: Self)
        ensures
            r == (AgentEvent { id: 0, name, source, content: None, expiry_time: None }),
    {
        AgentEvent { id: 0, name, source, content: None, expiry_time: None }
    }

    /// Sets the content to the JSON value `converted` holds, or fails with the
    /// conversion's error; this is `with_content` once the content is converted.
    pub fn with_content_value(self, converted: Result<Value, serde_json::Error>) -> (r: Result<
        Self,
        AgentEventError,
    >)
        ensures
            match converted {
                Ok(v) => r == Ok::<Self, AgentEventError>(
                    AgentEvent { content: Some(EventContent::Content(v)), ..self },
                ),
                Err(e) => r == Err::<Self, AgentEventError>(AgentEventError::SerdeJson(e)),
            },
    {
        match converted {
            Ok(v) => Ok(AgentEvent { content: Some(EventContent::Content(v)), ..self }),
            Err(e) => Err(AgentEventError::SerdeJson(e)),
        }
    }

    /// Sets the content to the JSON value of `content`, replacing any content;
    /// fails with `SerdeJson` when `content` cannot be converted to JSON.
    pub fn with_content<T: Serialize>(self, content: T) -> (r: Result<Self, AgentEventError>)
        ensures
            match r {
                Ok(e) => e.content matches Some(EventContent::Content(_)) && e.id == self.id
                    && e.name == self.name && e.source == self.source && e.expiry_time
                    == self.expiry_time,
                Err(e) => e is SerdeJson,
            },
    {
        let converted = json_to_value(content);
        self.with_content_value(converted)
    }

    /// Sets the content to the given JSON value, replacing any content.
    pub fn content(self, content: Value) -> (r: Self)
        ensures
            r == (AgentEvent { content: Some(EventContent::Content(content)), ..self }),
    {
        AgentEvent { content: Some(EventContent::Content(content)), ..self }
    }

    /// Sets the content to a control instruction, replacing any content.
    pub fn control(self, instruction: Control) -> (r: Self)
        ensures
            r == (AgentEvent { content: Some(EventContent::Control(instruction)), ..self }),
    {
        AgentEvent { content: Some(EventContent::Control(instruction)), ..self }
    }

    /// Sets the expiry time to `now` plus `lifetime`, replacing any expiry
    /// time.
    pub fn lifetime_from(self, now: Timestamp, lifetime: Duration) -> (r: Self)
        requires
            is_clock_reading(now),
            chrono_accepts(lifetime),
        ensures
            r == (AgentEvent { expiry_time: Some(plus_duration(now, lifetime)), ..self }),
    {
        let secs = secs_of(&lifetime);
        let nanos = subsec_nanos_of(&lifetime);
        let total: u32 = now.nanos + nanos;
        let expiry = if total >= 1_000_000_000 {
            Timestamp { secs: now.secs + (secs as i64) + 1, nanos: total - 1_000_000_000 }
        } else {
            Timestamp { secs: now.secs + (secs as i64), nanos: total }
        };
        AgentEvent { expiry_time: Some(expiry), ..self }
    }

    /// Sets the expiry time to the present time (`Utc::now`) plus `lifetime`,
    /// replacing any expiry time. `chrono` panics for a lifetime it cannot
    /// hold, which the `requires` leaves out, and when the sum passes its last
    /// second, which depends on the clock: there the sum is kept instead.
    pub fn lifetime(self, lifetime: Duration) -> (r: Self)
        requires
            chrono_accepts(lifetime),
        ensures
            exists|now: Timestamp|
                is_clock_reading(now) && r == (AgentEvent {
                    expiry_time: Some(plus_duration(now, lifetime)),
                    ..self
                }),
    {
        let now = utc_now();
        self.lifetime_from(now, lifetime)
    }

    /// `lifetime`, when `chrono` can hold the lifetime; otherwise the event
    /// unchanged.
    pub fn lifetime_within_range(self, lifetime: Duration) -> (r: Self)
        ensures
            chrono_accepts(lifetime) ==> exists|now: Timestamp|
                is_clock_reading(now) && r == (AgentEvent {
                    expiry_time: Some(plus_duration(now, lifetime)),
                    ..self
                }),
            !chrono_accepts(lifetime) ==> r == self,
    {
        let secs = secs_of(&lifetime);
        if secs < MAX_DELTA_SECS || (secs == MAX_DELTA_SECS && subsec_nanos_of(&lifetime)
            <= MAX_DELTA_NANOS) {
            self.lifetime(lifetime)
        } else {
            self
        }
    }

    /// Sets the expiry time, replacing any expiry time.
    pub fn expire_at(self, expiry_time: Timestamp) -> (r: Self)
        ensures
            r == (AgentEvent { expiry_time: Some(expiry_time), ..self }),
    {
        AgentEvent { expiry_time: Some(expiry_time), ..self }
    }

    /// The JSON value to parse the content from: the content when it is plain
    /// content; otherwise the `ContentError` that `parse_content` reports.
    pub fn content_to_parse(&self) -> (r: Result<Value, AgentEventError>)
        ensures
            match self.content {
                Some(EventContent::Content(v)) => r == Ok::<Value, AgentEventError>(v),
                Some(_) => r == Err::<Value, AgentEventError>(
                    AgentEventError::ContentError("Content is an AgentInstruction"),
                ),
                None => r == Err::<Value, AgentEventError>(
                    AgentEventError::ContentError("Content is None"),
                ),
            },
    {
        match &self.content {
            Some(EventContent::Content(content)) => Ok(content.clone()),
            Some(_) => Err(AgentEventError::ContentError("Content is an AgentInstruction")),
            None => Err(AgentEventError::ContentError("Content is None")),
        }
    }

    /// Parses the content as a value of type `T`: `ContentError` when there is
    /// no content or it is not plain content, `SerdeJson` when it does not
    /// describe a `T`.
    pub fn parse_content<T: DeserializeOwned>(&self) -> (r: Result<T, AgentEventError>)
        ensures
            match self.content {
                Some(EventContent::Content(_)) => r is Ok || r matches Err(
                    AgentEventError::SerdeJson(_),
                ),
                Some(_) => r matches Err(AgentEventError::ContentError(m)) && m
                    == "Content is an AgentInstruction",
                None => r matches Err(AgentEventError::ContentError(m)) && m == "Content is None",
            },
    {
        match self.content_to_parse() {
            Ok(v) => match json_from_value::<T>(v) {
                Ok(t) => Ok(t),
                Err(e) => Err(AgentEventError::SerdeJson(e)),
            },
            Err(e) => Err(e),
        }
    }

    /// Sets the content to an interaction, replacing any content.
    pub fn interaction(self, interaction: Interaction) -> (r: Self)
        ensures
            r == (AgentEvent { content: Some(EventContent::Interaction(interaction)), ..self }),
    {
        AgentEvent { content: Some(EventContent::Interaction(interaction)), ..self }
    }

    /// The interaction of the event, if its content is one.
    pub fn get_interaction(&self) -> (r: Option<&Interaction>)
        ensures
            match self.content {
                Some(EventContent::Interaction(i)) => r == Some(&i),
                _ => r is None,
            },
    {
        match &self.content {
            Some(EventContent::Interaction(interaction)) => Some(interaction),
            _ => None,
        }
    }
}

} // verus!
