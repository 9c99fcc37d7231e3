//! Audit events: one per tool invocation, handed to an audit sink.
use vstd::prelude::*;

use crate::config::{is_uuid_v4_text, new_uuid_v4};
use crate::text::{decimal, push_decimal};

verus! {

/// How a tool invocation ended.
#[derive(Debug, Clone, Copy, PartialEq, Eq, Structural)]
pub enum AuditResultStatus {
    Success,
    Denied,
    Error,
}

/// One audit record of a tool invocation.
#[derive(Debug, Clone)]
pub struct AuditEvent {
    pub timestamp: String,
    pub event_type: String,
    pub tool_name: String,
    pub caller_identity: String,
    pub authorization_scope: String,
    pub params_fingerprint: String,
    pub result_status: AuditResultStatus,
    pub result_bytes: usize,
    pub correlation_id: String,
    pub session_id: String,
    pub error_message: Option<String>,
}

/// Where audit events go. Implementations decide what writing means;
/// `wrote` says which events a sink has taken.
pub trait AuditSink {
    /// Whether `event` was written to this sink.
    spec fn wrote(&self, event: AuditEvent) -> bool;

    /// Writes `event` to the sink.
    fn write_event(&self, event: &AuditEvent)
        ensures
            self.wrote(*event),
    ;
}

/// The event type of every tool audit event.
pub open spec fn tool_result_event_type() -> Seq<char> {
    "mcp.tool.result"@
}

/// The decimal digits of `m`, with leading zeros up to three digits.
pub open spec fn padded_millis(m: nat) -> Seq<char> {
    if m < 10 {
        "00"@ + decimal(m)
    } else if m < 100 {
        "0"@ + decimal(m)
    } else {
        decimal(m)
    }
}

/// The timestamp text of `secs` seconds and `millis` milliseconds after the
/// Unix epoch.
pub open spec fn timestamp_text(secs: nat, millis: nat) -> Seq<char> {
    decimal(secs) + "."@ + padded_millis(millis) + "Z"@
}

/// The clock readings of std, declared so that they can be carried through.
#[verifier::external_type_specification]
#[verifier::external_body]
pub struct ExSystemTime(std::time::SystemTime);

/// Calls `SystemTime::now`. The reading depends on the clock; nothing is
/// claimed of it.
#[verifier::external_body]
fn system_now() -> std::time::SystemTime {
    std::time::SystemTime::now()
}

/// Calls `SystemTime::duration_since` with `UNIX_EPOCH`, taking a zero
/// duration when the reading is before the epoch. Durations are opaque
/// here; nothing is claimed of the result.
#[verifier::external_body]
fn since_epoch(t: std::time::SystemTime) -> std::time::Duration {
    t.duration_since(std::time::UNIX_EPOCH).unwrap_or_default()
}

/// Calls `Duration::as_secs`: the whole seconds of `d`, which is opaque
/// here; nothing is claimed of the result.
#[verifier::external_body]
fn whole_seconds(d: &std::time::Duration) -> u64 {
    d.as_secs()
}

/// Calls `Duration::subsec_millis`, which std documents to be below one
/// thousand; that is all the contract claims.
#[verifier::external_body]
fn millis_part(d: &std::time::Duration) -> (r: u32)
    ensures
        r < 1000,
{
    d.subsec_millis()
}

/// Writes a time given as seconds and milliseconds since the Unix epoch as
/// `<secs>.<millis>Z`, the milliseconds with at least three digits.
pub fn format_timestamp(secs: u64, millis: u32) -> (r: String)
    ensures
        r@ == timestamp_text(secs as nat, millis as nat),
{
    let mut out = String::new();
    push_decimal(&mut out, secs);
    out.append(".");
    if millis < 10 {
        out.append("00");
    } else if millis < 100 {
        out.append("0");
    }
    push_decimal(&mut out, millis as u64);
    out.append("Z");
    proof {
        reveal_strlit("00");
        reveal_strlit("0");
        assert(out@ =~= timestamp_text(secs as nat, millis as nat));
    }
    out
}

/// The current time as seconds and milliseconds since the Unix epoch,
/// written `<secs>.<millis>Z`.
pub fn chrono_now() -> (r: String)
    ensures
        exists|secs: nat, millis: nat| millis < 1000 && r@ == timestamp_text(secs, millis),
{
    let elapsed = since_epoch(system_now());
    let secs = whole_seconds(&elapsed);
    let millis = millis_part(&elapsed);
    format_timestamp(secs, millis)
}

/// Records tool invocations for one caller and session.
pub struct AuditLogger<S> {
    sink: S,
    caller_identity: String,
    session_id: String,
}

/// Whether `ev` records the given invocation for `caller` in `session`, at
/// whatever time and under whatever random correlation id.
pub open spec fn records(
    ev: AuditEvent,
    caller: Seq<char>,
    session: Seq<char>,
    tool_name: Seq<char>,
    scope: Seq<char>,
    params_fingerprint: Seq<char>,
    result_status: AuditResultStatus,
    result_bytes: usize,
    error_message: Option<String>,
) -> bool {
    &&& ev.event_type@ == tool_result_event_type()
    &&& ev.tool_name@ == tool_name
    &&& ev.caller_identity@ == caller
    &&& ev.authorization_scope@ == scope
    &&& ev.params_fingerprint@ == params_fingerprint
    &&& ev.result_status == result_status
    &&& ev.result_bytes == result_bytes
    &&& ev.session_id@ == session
    &&& ev.error_message == error_message
    &&& is_uuid_v4_text(ev.correlation_id@)
    &&& exists|secs: nat, millis: nat| millis < 1000 && ev.timestamp@ == timestamp_text(secs, millis)
}

impl<S: AuditSink> AuditLogger<S> {
    /// The identity recorded as the caller.
    pub closed spec fn caller(self) -> Seq<char> {
        self.caller_identity@
    }

    /// The session recorded with every event.
    pub closed spec fn session(self) -> Seq<char> {
        self.session_id@
    }

    /// The sink that the events are written to.
    pub closed spec fn sink_spec(self) -> S {
        self.sink
    }

    /// A logger writing to `sink` for the given caller and session.
    pub fn new(sink: S, caller_identity: &str, session_id: &str) -> (l: Self)
        ensures
            l.caller() == caller_identity@,
            l.session() == session_id@,
    {
        AuditLogger {
            sink,
            caller_identity: String::from_str(caller_identity),
            session_id: String::from_str(session_id),
        }
    }

    /// The event of one tool invocation for this caller and session, at
    /// `timestamp` and under `correlation_id`.
    pub fn make_event(
        &self,
        tool_name: &str,
        scope: &str,
        params_fingerprint: &str,
        result_status: AuditResultStatus,
        result_bytes: usize,
        error_message: Option<String>,
        timestamp: String,
        correlation_id: String,
    ) -> (ev: AuditEvent)
        ensures
            ev.timestamp == timestamp,
            ev.event_type@ == tool_result_event_type(),
            ev.tool_name@ == tool_name@,
            ev.caller_identity@ == self.caller(),
            ev.authorization_scope@ == scope@,
            ev.params_fingerprint@ == params_fingerprint@,
            ev.result_status == result_status,
            ev.result_bytes == result_bytes,
            ev.correlation_id == correlation_id,
            ev.session_id@ == self.session(),
            ev.error_message == error_message,
    {
        AuditEvent {
            timestamp,
            event_type: String::from_str("mcp.tool.result"),
            tool_name: String::from_str(tool_name),
            caller_identity: self.caller_identity.clone(),
            authorization_scope: String::from_str(scope),
            params_fingerprint: String::from_str(params_fingerprint),
            result_status,
            result_bytes,
            correlation_id,
            session_id: self.session_id.clone(),
            error_message,
        }
    }

    /// Builds the event of one tool invocation, stamps it with the current
    /// time and a fresh correlation id, writes it to the sink, and returns it.
    pub fn log_tool_invoke(
        &self,
        tool_name: &str,
        scope: &str,
        params_fingerprint: &str,
        result_status: AuditResultStatus,
        result_bytes: usize,
        error_message: Option<String>,
    ) -> (ev: AuditEvent)
        ensures
            records(
                ev,
                self.caller(),
                self.session(),
                tool_name@,
                scope@,
                params_fingerprint@,
                result_status,
                result_bytes,
                error_message,
            ),
            self.sink_spec().wrote(ev),
    {
        let event = self.make_event(
            tool_name,
            scope,
            params_fingerprint,
            result_status,
            result_bytes,
            error_message,
            chrono_now(),
            new_uuid_v4(),
        );
        self.sink.write_event(&event);
        event
    }
}

} // verus!
