use vstd::prelude::*;
use vstd::string::StringExecFns;
use crate::errors::Error;
use crate::login::{service_url, spec_service_url};
use crate::types::{Service, spec_base_url};
use crate::json::{Json, JsonModel, as_bool, field, json_parse, parse_json, parsed_view, spec_as_bool, spec_field};

verus! {

/// Seconds between two refreshes of the session.
pub const REFRESH_INTERVAL_SECS: u64 = 120;

/// The request that keeps a Moodle session alive, as JSON text.
pub const SESSION_TOUCH_BODY: &'static str = "[{\"index\":0,\"methodname\":\"core_session_touch\",\"args\":{}}]";

/// Where the session refresh loop stands.
#[derive(Debug, Clone, Copy, PartialEq, Eq, Structural)]
pub enum RefreshPhase {
    /// Waiting for the next refresh.
    Sleeping,
    /// Waiting for the session key.
    FetchingSesskey,
    /// Waiting for the server to take the request.
    Touching,
    /// Waiting for the answer text.
    Reading,
}

/// What the server answered to a session refresh.
#[derive(Debug, Clone, Copy, PartialEq, Eq, Structural)]
pub enum TouchReply {
    /// The answer is not a JSON array.
    NotJson,
    /// The answer is a JSON array without entries.
    Empty,
    /// The first entry of the array, with its `error` field where that is a boolean.
    First(Option<bool>),
}

/// What the server's answer to a session refresh says: not a JSON array, an empty array,
/// or an array whose first entry is an object with an `error` field that is a boolean
/// (`First(Some(..))`) or is not (`First(None)`).
pub open spec fn spec_touch_reply(parsed: Result<JsonModel, Seq<char>>) -> TouchReply {
    match parsed {
        Ok(JsonModel::Array(entries)) => if entries.len() == 0 {
            TouchReply::Empty
        } else {
            TouchReply::First(
                match spec_field(json_parse(entries[0]), "error"@) {
                    Some(t) => spec_as_bool(json_parse(t)),
                    None => None,
                },
            )
        },
        _ => TouchReply::NotJson,
    }
}

/// Classifies the server's parsed answer to a session refresh.
pub fn touch_reply(parsed: &Result<Json, String>) -> (r: TouchReply)
    ensures
        r == spec_touch_reply(parsed_view(*parsed)),
{
    match parsed {
        Ok(Json::Array(entries)) => {
            if entries.len() == 0 {
                TouchReply::Empty
            } else {
                let error = match field(&parse_json(entries[0].as_str()), "error") {
                    Some(t) => as_bool(&parse_json(t.as_str())),
                    None => None,
                };
                TouchReply::First(error)
            }
        },
        _ => TouchReply::NotJson,
    }
}

/// What happened while the loop waited.
pub enum RefreshEvent {
    /// The pause is over.
    Woke,
    /// The session key was fetched, or not.
    Sesskey(Result<String, Error>),
    /// The refresh request was sent (`true`) or failed (`false`).
    Sent(bool),
    /// The answer text was read.
    Replied(String),
}

/// The next thing the loop does.
pub enum RefreshCommand {
    /// Pause for this many seconds.
    Sleep(u64),
    /// Fetch the session key from the LMS dashboard.
    FetchSesskey,
    /// Send this JSON request to this address.
    Send { url: String, body: String },
    /// Read the answer text.
    ReadReply,
}

/// A line for the log: on the error stream, or not.
pub struct LogLine {
    pub text: String,
    pub is_error: bool,
}

/// One step of the refresh loop.
pub struct RefreshStep {
    pub phase: RefreshPhase,
    pub log: Option<LogLine>,
    pub command: RefreshCommand,
}

/// The log line of a step: `None`, or that text on the given stream.
pub open spec fn logs(step: RefreshStep, text: Seq<char>, is_error: bool) -> bool {
    step.log matches Some(l) && l.text@ == text && l.is_error == is_error
}

/// The step goes back to the pause.
pub open spec fn back_to_sleep(step: RefreshStep) -> bool {
    &&& step.phase == RefreshPhase::Sleeping
    &&& step.command matches RefreshCommand::Sleep(s) && s == REFRESH_INTERVAL_SECS
}

/// The address that keeps the LMS session with this key alive.
pub open spec fn spec_touch_url(sesskey: Seq<char>) -> Seq<char> {
    spec_service_url(
        Service::LMS,
        "/lib/ajax/service.php?sesskey="@ + sesskey + "&info=core_session_touch"@,
    )
}

fn sleep_step(log: Option<LogLine>) -> (step: RefreshStep)
    ensures
        back_to_sleep(step),
        step.log == log,
{
    RefreshStep { phase: RefreshPhase::Sleeping, log, command: RefreshCommand::Sleep(REFRESH_INTERVAL_SECS) }
}

fn line(text: &str, is_error: bool) -> (l: Option<LogLine>)
    ensures
        l matches Some(x) && x.text@ == text@ && x.is_error == is_error,
{
    Some(LogLine { text: String::from_str(text), is_error })
}

/// The loop that keeps the LMS session alive: every two minutes it fetches the session key
/// and asks the server to touch the session; each failure is logged and waits for the next
/// round. A state and an event give the next state, a log line and what to do next.
pub fn refresh_step(phase: RefreshPhase, event: RefreshEvent) -> (step: RefreshStep)
    ensures
        match (phase, event) {
            (RefreshPhase::Sleeping, RefreshEvent::Woke) => step.phase
                == RefreshPhase::FetchingSesskey && step.log is None
                && step.command is FetchSesskey,
            (RefreshPhase::FetchingSesskey, RefreshEvent::Sesskey(Ok(k))) => step.phase
                == RefreshPhase::Touching && step.log is None && (step.command matches RefreshCommand::Send {
                url,
                body,
            } && url@ == spec_touch_url(k@) && body@ == SESSION_TOUCH_BODY@),
            (RefreshPhase::FetchingSesskey, RefreshEvent::Sesskey(Err(_))) => back_to_sleep(step)
                && logs(step, "failed to fetch sesskey"@, true),
            (RefreshPhase::Touching, RefreshEvent::Sent(true)) => step.phase
                == RefreshPhase::Reading && step.log is None && step.command is ReadReply,
            (RefreshPhase::Touching, RefreshEvent::Sent(false)) => back_to_sleep(step) && logs(
                step,
                "error while fetching refresh url"@,
                true,
            ),
            (RefreshPhase::Reading, RefreshEvent::Replied(text)) => back_to_sleep(step) && match spec_touch_reply(
                json_parse(text@),
            ) {
                TouchReply::NotJson => logs(step, "error while parsing response"@, true),
                TouchReply::Empty => step.log is None,
                TouchReply::First(Some(false)) => logs(step, "refreshed session"@, false),
                TouchReply::First(_) => logs(step, "error while refreshing session"@, true),
            },
            _ => back_to_sleep(step) && step.log is None,
        },
{
    match (phase, event) {
        (RefreshPhase::Sleeping, RefreshEvent::Woke) => RefreshStep {
            phase: RefreshPhase::FetchingSesskey,
            log: None,
            command: RefreshCommand::FetchSesskey,
        },
        (RefreshPhase::FetchingSesskey, RefreshEvent::Sesskey(Ok(k))) => {
            let url = service_url(&Service::LMS, "/lib/ajax/service.php?sesskey=").concat(
                k.as_str(),
            ).concat("&info=core_session_touch");
            RefreshStep {
                phase: RefreshPhase::Touching,
                log: None,
                command: RefreshCommand::Send { url, body: String::from_str(SESSION_TOUCH_BODY) },
            }
        },
        (RefreshPhase::FetchingSesskey, RefreshEvent::Sesskey(Err(_))) => sleep_step(
            line("failed to fetch sesskey", true),
        ),
        (RefreshPhase::Touching, RefreshEvent::Sent(true)) => RefreshStep {
            phase: RefreshPhase::Reading,
            log: None,
            command: RefreshCommand::ReadReply,
        },
        (RefreshPhase::Touching, RefreshEvent::Sent(false)) => sleep_step(
            line("error while fetching refresh url", true),
        ),
        (RefreshPhase::Reading, RefreshEvent::Replied(text)) => match touch_reply(
            &parse_json(text.as_str()),
        ) {
            TouchReply::NotJson => sleep_step(line("error while parsing response", true)),
            TouchReply::Empty => sleep_step(None),
            TouchReply::First(Some(false)) => sleep_step(line("refreshed session", false)),
            TouchReply::First(_) => sleep_step(line("error while refreshing session", true)),
        },
        _ => sleep_step(None),
    }
}

/// The touch address is the LMS base address followed by the service path, the session key
/// unchanged, and the `core_session_touch` call.
pub proof fn touch_address_carries_the_key(k: Seq<char>)
    ensures
        spec_touch_url(k) == spec_base_url(Service::LMS) + "/lib/ajax/service.php?sesskey="@ + k
            + "&info=core_session_touch"@,
{
    assert(spec_touch_url(k) =~= spec_base_url(Service::LMS) + "/lib/ajax/service.php?sesskey="@ + k
        + "&info=core_session_touch"@);
}

/// Different session keys give different touch addresses.
pub proof fn touch_addresses_differ_by_key(k1: Seq<char>, k2: Seq<char>)
    requires
        k1 != k2,
    ensures
        spec_touch_url(k1) != spec_touch_url(k2),
{
    touch_address_carries_the_key(k1);
    touch_address_carries_the_key(k2);
    let p = spec_base_url(Service::LMS) + "/lib/ajax/service.php?sesskey="@;
    let s = "&info=core_session_touch"@;
    let u1 = p + k1 + s;
    let u2 = p + k2 + s;
    if u1 == u2 {
        assert(u1.subrange(p.len() as int, u1.len() - s.len()) =~= k1);
        assert(u2.subrange(p.len() as int, u2.len() - s.len()) =~= k2);
    }
}

/// The answer to a session refresh counts as unreadable exactly when it is not a JSON array,
/// as empty exactly when it is an empty array, and otherwise by its first entry.
pub proof fn touch_reply_follows_the_array(parsed: Result<JsonModel, Seq<char>>)
    ensures
        spec_touch_reply(parsed) == TouchReply::NotJson <==> !(parsed matches Ok(JsonModel::Array(_))),
        spec_touch_reply(parsed) == TouchReply::Empty <==> (parsed matches Ok(JsonModel::Array(e))
            && e.len() == 0),
        forall|e: Seq<Seq<char>>|
            parsed == Ok::<JsonModel, Seq<char>>(JsonModel::Array(e)) && e.len() > 0 ==> spec_touch_reply(
                parsed,
            ) == TouchReply::First(spec_as_bool_member(json_parse(#[trigger] e[0]), "error"@)),
{
}

/// The boolean under `name` where the parsed value is an object whose member of that name is
/// a boolean.
pub open spec fn spec_as_bool_member(parsed: Result<JsonModel, Seq<char>>, name: Seq<char>) -> Option<bool> {
    match spec_field(parsed, name) {
        Some(t) => spec_as_bool(json_parse(t)),
        None => None,
    }
}

} // verus!
