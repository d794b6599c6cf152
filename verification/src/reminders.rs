use vstd::prelude::*;
use vstd::string::StringExecFns;
use crate::decimal::{
    decimal_round_trip, u64_to_decimal, i64_to_decimal, parse_i64, signed_decimal, spec_parse_i64,
};
use crate::errors::{Error, ErrorModel};
use crate::types::LoginPayload;
use crate::json::{
    Json, JsonModel, as_str, field, item, json_parse, parse_json, parsed_view, spec_as_str,
    spec_field, spec_item,
};

verus! {

/// The pattern of the event time in the link of a calendar event: `time=` and the digits
/// of a Unix time stamp, which the first group captures.
pub const TIME_PATTERN: &'static str = "time=(\\d+)";

/// What the regex crate finds: `None` where `pattern` does not compile, else the text of
/// capture group `group` of the leftmost match in `haystack`, if there is a match and the
/// group took part in it.
pub uninterp spec fn regex_capture(pattern: Seq<char>, haystack: Seq<char>, group: nat) -> Option<
    Option<Seq<char>>,
>;

/// Compiles `pattern` with `regex::Regex::new` and takes capture group `group` of
/// `Regex::captures` on `haystack`. The contract claims only that the result is what the
/// regex crate computes from these arguments (the name `regex_capture`).
#[verifier::external_body]
fn capture(pattern: &str, haystack: &str, group: usize) -> (r: Option<Option<String>>)
    ensures
        r.deep_view() == regex_capture(pattern@, haystack@, group as nat),
{
    let re = regex::Regex::new(pattern).ok()?;
    Some(re.captures(haystack).and_then(|c| c.get(group)).map(|m| m.as_str().to_string()))
}

/// The first second of chrono's earliest date, 1 January of the year -262143, as a Unix
/// time stamp.
pub const MIN_TIMESTAMP: i64 = -8334601228800;

/// The last second of chrono's latest date, 31 December of the year 262142, as a Unix time
/// stamp.
pub const MAX_TIMESTAMP: i64 = 8210266876799;

/// Asks chrono for the local time at the Unix time stamp `secs`
/// (`TimeZone::timestamp_opt` on `Local`). chrono gives a single local time exactly when
/// `DateTime::from_timestamp(secs, 0)` succeeds, which is when the day of `secs` lies within
/// chrono's dates, the years -262143 to 262142; the time zone only moves the offset. The
/// contract states that interval.
#[verifier::external_body]
fn local_time_in_range(secs: i64) -> (b: bool)
    ensures
        b == (MIN_TIMESTAMP <= secs <= MAX_TIMESTAMP),
{
    chrono::TimeZone::timestamp_opt(&chrono::Local, secs, 0).single().is_some()
}

/// Why a calendar event gives no reminder.
#[derive(Debug, Clone, Copy, PartialEq, Eq, Structural)]
pub enum ReminderError {
    /// The time pattern does not compile.
    PatternRefused,
    /// The event text holds no time stamp.
    NoTime,
    /// The time stamp is not an `i64`.
    NotANumber,
    /// The time stamp lies outside the times that chrono represents.
    OutOfRange,
    /// The event has no `formattedtime` field.
    NoFormattedTime,
}

/// The time stamp that the captured digits write, if the pattern compiled and matched.
pub open spec fn spec_time_from_capture(captured: Option<Option<Seq<char>>>) -> Result<
    int,
    ReminderError,
> {
    match captured {
        None => Err(ReminderError::PatternRefused),
        Some(None) => Err(ReminderError::NoTime),
        Some(Some(digits)) => match spec_parse_i64(digits) {
            None => Err(ReminderError::NotANumber),
            Some(t) => Ok(t),
        },
    }
}

/// The time stamp of a calendar event, from the JSON text of its `formattedtime` field.
pub open spec fn spec_event_time(formatted: Seq<char>) -> Result<int, ReminderError> {
    match spec_time_from_capture(regex_capture(TIME_PATTERN@, formatted, 1)) {
        Ok(t) => if MIN_TIMESTAMP <= t <= MAX_TIMESTAMP {
            Ok(t)
        } else {
            Err(ReminderError::OutOfRange)
        },
        Err(e) => Err(e),
    }
}

/// Reads the time stamp from what the time pattern captured.
pub fn time_from_capture(captured: Option<Option<String>>) -> (r: Result<i64, ReminderError>)
    ensures
        match r {
            Ok(t) => spec_time_from_capture(captured.deep_view()) == Ok::<int, ReminderError>(t as int),
            Err(e) => spec_time_from_capture(captured.deep_view()) == Err::<int, ReminderError>(e),
        },
{
    match captured {
        None => Err(ReminderError::PatternRefused),
        Some(None) => Err(ReminderError::NoTime),
        Some(Some(digits)) => match parse_i64(digits.as_str()) {
            None => Err(ReminderError::NotANumber),
            Some(t) => Ok(t),
        },
    }
}

/// Reads the time stamp of a calendar event from the JSON text of its `formattedtime` field.
pub fn event_time(formatted: &str) -> (r: Result<i64, ReminderError>)
    ensures
        match r {
            Ok(t) => spec_event_time(formatted@) == Ok::<int, ReminderError>(t as int),
            Err(e) => spec_event_time(formatted@) == Err::<int, ReminderError>(e),
        },
{
    let t = match time_from_capture(capture(TIME_PATTERN, formatted, 1)) {
        Ok(t) => t,
        Err(e) => {
            return Err(e);
        },
    };
    if local_time_in_range(t) {
        Ok(t)
    } else {
        Err(ReminderError::OutOfRange)
    }
}

/// Nanoseconds in a second.
pub const NANOS_PER_SEC: i128 = 1_000_000_000;

/// Nanoseconds in an hour.
pub const NANOS_PER_HOUR: i128 = 3_600_000_000_000;

/// `a / b` rounded toward zero, for `b > 0`.
pub open spec fn div_toward_zero(a: int, b: int) -> int {
    if a >= 0 {
        a / b
    } else {
        -((-a) / b)
    }
}

/// The whole hours from the moment `now_secs` s + `now_nanos` ns to the event at `event`
/// s, rounded toward zero (chrono's `num_hours` of the difference of the two times).
pub open spec fn spec_hours_until(event: int, now_secs: int, now_nanos: int) -> int {
    div_toward_zero((event - now_secs) * 1_000_000_000 - now_nanos, 3_600_000_000_000)
}

/// The whole hours from now to an event, rounded toward zero; negative for a past event.
pub fn hours_until(event: i64, now_secs: i64, now_nanos: u32) -> (h: i64)
    requires
        now_nanos < 1_000_000_000,
    ensures
        h == spec_hours_until(event as int, now_secs as int, now_nanos as int),
{
    let d: i128 = (event as i128) - (now_secs as i128);
    assert(-18446744073709551616 <= d <= 18446744073709551616);
    let x: i128 = d * NANOS_PER_SEC - (now_nanos as i128);
    if x >= 0 {
        let q: i128 = x / NANOS_PER_HOUR;
        assert(q <= 5200000000000000) by (nonlinear_arith)
            requires
                q == x / 3_600_000_000_000,
                0 <= x <= 18446744073709551616 * 1_000_000_000,
        ;
        q as i64
    } else {
        let q: i128 = (-x) / NANOS_PER_HOUR;
        assert(q <= 5200000000000000) by (nonlinear_arith)
            requires
                q == (-x) / 3_600_000_000_000,
                0 < -x <= 18446744073709551616 * 1_000_000_000 + 1_000_000_000,
        ;
        (-q) as i64
    }
}

/// The line written to the console for an event `hours` hours away.
pub open spec fn spec_hours_line(hours: int) -> Seq<char> {
    if hours < 0 {
        "This event was "@ + signed_decimal(-hours) + " hours ago!"@
    } else {
        "This event is in "@ + signed_decimal(hours) + " hours!"@
    }
}

/// The line written to the console for an event `hours` hours away.
pub fn hours_line(hours: i64) -> (line: String)
    ensures
        line@ == spec_hours_line(hours as int),
{
    if hours < 0 {
        let magnitude: u64 = if hours == i64::MIN {
            9223372036854775808u64
        } else {
            (-hours) as u64
        };
        String::from_str("This event was ").concat(u64_to_decimal(magnitude).as_str()).concat(
            " hours ago!",
        )
    } else {
        String::from_str("This event is in ").concat(i64_to_decimal(hours).as_str()).concat(
            " hours!",
        )
    }
}

/// The text of the reminder for an assignment `hours` hours away.
pub open spec fn spec_reminder_text(name: Seq<char>, hours: int) -> Seq<char> {
    "assignment "@ + name + " in "@ + signed_decimal(hours) + " hours."@
}

/// The text of the reminder for an assignment `hours` hours away.
pub fn reminder_text(name: &str, hours: i64) -> (text: String)
    ensures
        text@ == spec_reminder_text(name@, hours as int),
{
    String::from_str("assignment ").concat(name).concat(" in ").concat(
        i64_to_decimal(hours).as_str(),
    ).concat(" hours.")
}

/// Seconds between two checks of the calendar in the background: one day.
pub const DAILY_CHECK_SECS: u64 = 86400;

/// The title of the notification shown when the assignments cannot be fetched.
pub const FETCH_FAILED_TITLE: &'static str = "Unable to fetch Assignments";

/// The icon of the notifications.
pub const NOTIFICATION_ICON: &'static str = "vertex30x30.png";

/// The credentials for the background check: any failure to find them is reported as a
/// failed login.
pub fn credentials_for_check(found: Result<LoginPayload, Error>) -> (r: Result<LoginPayload, Error>)
    ensures
        found is Ok ==> r == found,
        found is Err ==> (r matches Err(e) && e@ == ErrorModel::AuthError(
            "failed to get entry for user"@,
        )),
{
    match found {
        Ok(p) => Ok(p),
        Err(_) => Err(Error::AuthError(String::from_str("failed to get entry for user"))),
    }
}

/// An event is reported as past exactly when it lies at least one whole hour before now;
/// the hours are rounded toward zero both ways.
pub proof fn past_exactly_after_a_whole_hour(event: int, now_secs: int, now_nanos: int)
    requires
        0 <= now_nanos < 1_000_000_000,
    ensures
        spec_hours_until(event, now_secs, now_nanos) < 0 <==> (event - now_secs) * 1_000_000_000
            - now_nanos <= -3_600_000_000_000,
        spec_hours_until(event, now_secs, now_nanos) > 0 <==> (event - now_secs) * 1_000_000_000
            - now_nanos >= 3_600_000_000_000,
{
}

/// One event of the calendar reply: the JSON text of its `formattedtime` field, its `name`
/// and the `summary` of its `course`, each where the reply has it (as a string, for the
/// last two).
pub struct CalendarEvent {
    pub formatted_time: Option<String>,
    pub name: Option<String>,
    pub course_summary: Option<String>,
}

/// A calendar event with its texts taken as sequences of characters.
pub type EventModel = (Option<Seq<char>>, Option<Seq<char>>, Option<Seq<char>>);

impl View for CalendarEvent {
    type V = EventModel;

    open spec fn view(&self) -> EventModel {
        (self.formatted_time.deep_view(), self.name.deep_view(), self.course_summary.deep_view())
    }
}

/// The events of a list, each taken as a model.
pub open spec fn events_view(v: Seq<CalendarEvent>) -> Seq<EventModel> {
    v.map_values(|e: CalendarEvent| e@)
}

/// A read calendar reply, with its texts taken as sequences of characters.
pub open spec fn calendar_view(read: Result<Option<Vec<CalendarEvent>>, String>) -> Result<
    Option<Seq<EventModel>>,
    Seq<char>,
> {
    match read {
        Err(m) => Err(m@),
        Ok(None) => Ok(None),
        Ok(Some(v)) => Ok(Some(events_view(v@))),
    }
}

/// A string member of a parsed object, where it has one.
pub open spec fn spec_str_field(parsed: Result<JsonModel, Seq<char>>, name: Seq<char>) -> Option<Seq<char>> {
    match spec_field(parsed, name) {
        Some(t) => spec_as_str(json_parse(t)),
        None => None,
    }
}

/// One event of the calendar, from its JSON text: the JSON text of its `formattedtime`, its
/// `name` string and the `summary` string of its `course` object.
pub open spec fn spec_event_of(text: Seq<char>) -> EventModel {
    let event = json_parse(text);
    (
        spec_field(event, "formattedtime"@),
        spec_str_field(event, "name"@),
        match spec_field(event, "course"@) {
            Some(course) => spec_str_field(json_parse(course), "summary"@),
            None => None,
        },
    )
}

/// The JSON texts of the events of a parsed calendar reply: the array at
/// `[0].data.events`, where there is one.
pub open spec fn spec_event_list(parsed: Result<JsonModel, Seq<char>>) -> Option<Seq<Seq<char>>> {
    match spec_item(parsed, 0) {
        None => None,
        Some(first) => match spec_field(json_parse(first), "data"@) {
            None => None,
            Some(data) => match spec_field(json_parse(data), "events"@) {
                None => None,
                Some(events) => match json_parse(events) {
                    Ok(JsonModel::Array(items)) => Some(items),
                    _ => None,
                },
            },
        },
    }
}

/// What a parsed calendar reply gives: the parse error, `None` where there is no event
/// list, else each event in order.
pub open spec fn spec_calendar(parsed: Result<JsonModel, Seq<char>>) -> Result<
    Option<Seq<EventModel>>,
    Seq<char>,
> {
    match parsed {
        Err(m) => Err(m),
        Ok(_) => Ok(
            match spec_event_list(parsed) {
                None => None,
                Some(items) => Some(items.map_values(|t: Seq<char>| spec_event_of(t))),
            },
        ),
    }
}

fn str_field(parsed: &Result<Json, String>, name: &str) -> (r: Option<String>)
    ensures
        r.deep_view() == spec_str_field(parsed_view(*parsed), name@),
{
    match field(parsed, name) {
        Some(t) => as_str(&parse_json(t.as_str())),
        None => None,
    }
}

/// Reads one calendar event from its JSON text.
pub fn event_from_json(text: &str) -> (e: CalendarEvent)
    ensures
        e@ == spec_event_of(text@),
{
    let event = parse_json(text);
    let formatted_time = field(&event, "formattedtime");
    let name = str_field(&event, "name");
    let course_summary = match field(&event, "course") {
        Some(course) => str_field(&parse_json(course.as_str()), "summary"),
        None => None,
    };
    CalendarEvent { formatted_time, name, course_summary }
}

fn event_list(parsed: &Result<Json, String>) -> (r: Option<Vec<String>>)
    ensures
        r.deep_view() == spec_event_list(parsed_view(*parsed)),
{
    let first = match item(parsed, 0) {
        None => {
            return None;
        },
        Some(t) => t,
    };
    let data = match field(&parse_json(first.as_str()), "data") {
        None => {
            return None;
        },
        Some(t) => t,
    };
    let events = match field(&parse_json(data.as_str()), "events") {
        None => {
            return None;
        },
        Some(t) => t,
    };
    match parse_json(events.as_str()) {
        Ok(Json::Array(items)) => Some(items),
        _ => None,
    }
}

/// Reads the events of a parsed calendar reply.
pub fn calendar_from_json(parsed: Result<Json, String>) -> (r: Result<Option<Vec<CalendarEvent>>, String>)
    ensures
        calendar_view(r) == spec_calendar(parsed_view(parsed)),
{
    let items = match &parsed {
        Err(m) => {
            return Err(m.clone());
        },
        Ok(_) => match event_list(&parsed) {
            None => {
                return Ok(None);
            },
            Some(items) => items,
        },
    };
    let ghost texts = items.deep_view();
    let mut events: Vec<CalendarEvent> = Vec::new();
    let mut i: usize = 0;
    while i < items.len()
        invariant
            i <= items.len(),
            texts == items.deep_view(),
            events.len() == i,
            forall|k: int| 0 <= k < i ==> #[trigger] events@[k]@ == spec_event_of(texts[k]),
        decreases items.len() - i,
    {
        events.push(event_from_json(items[i].as_str()));
        i = i + 1;
    }
    assert(events_view(events@) =~= texts.map_values(|t: Seq<char>| spec_event_of(t)));
    Ok(Some(events))
}

/// Reads the events of a calendar reply.
pub fn calendar_events(reply: &str) -> (r: Result<Option<Vec<CalendarEvent>>, String>)
    ensures
        calendar_view(r) == spec_calendar(json_parse(reply@)),
{
    calendar_from_json(parse_json(reply))
}

/// A notification about an assignment, and the line written to the console for it.
pub struct Reminder {
    pub console_line: String,
    pub title: String,
    pub body: String,
}

/// What one calendar event gives.
pub enum EventReminder {
    /// A reminder to show.
    Ready(Reminder),
    /// The event's time cannot be read; nothing is shown.
    TimeUnreadable(ReminderError),
    /// The event has no name; only this console line can be written.
    MissingName(String),
    /// The event has no course summary; only this console line can be written.
    MissingCourse(String),
}

/// What one calendar event gives, with its texts taken as sequences of characters.
pub enum EventReminderModel {
    Ready { console_line: Seq<char>, title: Seq<char>, body: Seq<char> },
    TimeUnreadable(ReminderError),
    MissingName(Seq<char>),
    MissingCourse(Seq<char>),
}

impl View for EventReminder {
    type V = EventReminderModel;

    open spec fn view(&self) -> EventReminderModel {
        match self {
            EventReminder::Ready(r) => EventReminderModel::Ready {
                console_line: r.console_line@,
                title: r.title@,
                body: r.body@,
            },
            EventReminder::TimeUnreadable(e) => EventReminderModel::TimeUnreadable(*e),
            EventReminder::MissingName(l) => EventReminderModel::MissingName(l@),
            EventReminder::MissingCourse(l) => EventReminderModel::MissingCourse(l@),
        }
    }
}

/// What one calendar event gives at the moment `now_secs` s + `now_nanos` ns: its time is
/// read first, then the console line is made, then the name and the course are needed.
pub open spec fn spec_event_reminder(event: EventModel, now_secs: int, now_nanos: int) -> EventReminderModel {
    match event.0 {
        None => EventReminderModel::TimeUnreadable(ReminderError::NoFormattedTime),
        Some(formatted) => match spec_event_time(formatted) {
            Err(e) => EventReminderModel::TimeUnreadable(e),
            Ok(t) => {
                let hours = spec_hours_until(t, now_secs, now_nanos);
                let line = spec_hours_line(hours);
                match event.1 {
                    None => EventReminderModel::MissingName(line),
                    Some(name) => match event.2 {
                        None => EventReminderModel::MissingCourse(line),
                        Some(course) => EventReminderModel::Ready {
                            console_line: line,
                            title: course,
                            body: spec_reminder_text(name, hours),
                        },
                    },
                }
            },
        },
    }
}

/// What one calendar event gives at the given moment.
pub fn event_reminder(event: &CalendarEvent, now_secs: i64, now_nanos: u32) -> (r: EventReminder)
    requires
        now_nanos < 1_000_000_000,
    ensures
        r@ == spec_event_reminder(event@, now_secs as int, now_nanos as int),
{
    let formatted = match &event.formatted_time {
        None => {
            return EventReminder::TimeUnreadable(ReminderError::NoFormattedTime);
        },
        Some(f) => f,
    };
    let t = match event_time(formatted.as_str()) {
        Err(e) => {
            return EventReminder::TimeUnreadable(e);
        },
        Ok(t) => t,
    };
    let hours = hours_until(t, now_secs, now_nanos);
    let line = hours_line(hours);
    match &event.name {
        None => EventReminder::MissingName(line),
        Some(name) => match &event.course_summary {
            None => EventReminder::MissingCourse(line),
            Some(course) => EventReminder::Ready(
                Reminder { console_line: line, title: course.clone(), body: reminder_text(name.as_str(), hours) },
            ),
        },
    }
}

/// What each event of a list gives at the given moment, in order.
pub fn event_reminders(events: &Vec<CalendarEvent>, now_secs: i64, now_nanos: u32) -> (r: Vec<EventReminder>)
    requires
        now_nanos < 1_000_000_000,
    ensures
        r.len() == events.len(),
        forall|i: int|
            0 <= i < r.len() ==> #[trigger] r@[i]@ == spec_event_reminder(
                events@[i]@,
                now_secs as int,
                now_nanos as int,
            ),
{
    let mut r: Vec<EventReminder> = Vec::new();
    let mut i: usize = 0;
    while i < events.len()
        invariant
            i <= events.len(),
            now_nanos < 1_000_000_000,
            r.len() == i,
            forall|k: int|
                0 <= k < i ==> #[trigger] r@[k]@ == spec_event_reminder(
                    events@[k]@,
                    now_secs as int,
                    now_nanos as int,
                ),
        decreases events.len() - i,
    {
        r.push(event_reminder(&events[i], now_secs, now_nanos));
        i = i + 1;
    }
    r
}

/// The reminders of a read calendar reply: a reply that is not JSON is a JSON error with
/// serde_json's text, a reply without an event list gives `None`, and each event gives its
/// reminder, in order.
pub fn reminders_from_calendar(
    read: Result<Option<Vec<CalendarEvent>>, String>,
    now_secs: i64,
    now_nanos: u32,
) -> (r: Result<Option<Vec<EventReminder>>, Error>)
    requires
        now_nanos < 1_000_000_000,
    ensures
        match calendar_view(read) {
            Err(m) => r matches Err(e) && e@ == ErrorModel::InvalidJSONFormat(m),
            Ok(None) => r matches Ok(None),
            Ok(Some(events)) => r matches Ok(Some(v)) && v.len() == events.len() && forall|i: int|
                0 <= i < v.len() ==> #[trigger] v@[i]@ == spec_event_reminder(
                    events[i],
                    now_secs as int,
                    now_nanos as int,
                ),
        },
{
    match read {
        Err(m) => Err(Error::InvalidJSONFormat(m)),
        Ok(None) => Ok(None),
        Ok(Some(events)) => {
            let v = event_reminders(&events, now_secs, now_nanos);
            assert forall|i: int| 0 <= i < v.len() implies #[trigger] v@[i]@ == spec_event_reminder(
                events_view(events@)[i],
                now_secs as int,
                now_nanos as int,
            ) by {
                assert(events_view(events@)[i] == events@[i]@);
            }
            Ok(Some(v))
        },
    }
}

/// The reminders of the calendar reply, as `reminders_from_calendar` gives them for the
/// events read from the reply.
pub fn reminders_from_reply(reply: &str, now_secs: i64, now_nanos: u32) -> (r: Result<
    Option<Vec<EventReminder>>,
    Error,
>)
    requires
        now_nanos < 1_000_000_000,
    ensures
        match spec_calendar(json_parse(reply@)) {
            Err(m) => r matches Err(e) && e@ == ErrorModel::InvalidJSONFormat(m),
            Ok(None) => r matches Ok(None),
            Ok(Some(events)) => r matches Ok(Some(v)) && v.len() == events.len() && forall|i: int|
                0 <= i < v.len() ==> #[trigger] v@[i]@ == spec_event_reminder(
                    events[i],
                    now_secs as int,
                    now_nanos as int,
                ),
        },
{
    reminders_from_calendar(calendar_events(reply), now_secs, now_nanos)
}

/// The hours to an event are the time to it divided by one hour and rounded toward zero:
/// they lie within one hour of the exact time, on its side of zero.
pub proof fn hours_until_is_the_time_in_whole_hours(event: int, now_secs: int, now_nanos: int)
    requires
        0 <= now_nanos < 1_000_000_000,
    ensures
        ({
            let x = (event - now_secs) * 1_000_000_000 - now_nanos;
            let h = spec_hours_until(event, now_secs, now_nanos);
            &&& x >= 0 ==> 0 <= h && h * 3_600_000_000_000 <= x && x < (h + 1) * 3_600_000_000_000
            &&& x < 0 ==> h <= 0 && (h - 1) * 3_600_000_000_000 < x && x <= h * 3_600_000_000_000
        }),
{
}

/// An event a whole number of hours away, seen at a whole second, is that many hours away.
pub proof fn whole_hours_ahead(k: int, now_secs: int)
    ensures
        spec_hours_until(now_secs + 3600 * k, now_secs, 0) == k,
{
    hours_until_is_the_time_in_whole_hours(now_secs + 3600 * k, now_secs, 0);
}

/// When the reply holds an event list, every item of it is read, in order: the `k`-th event
/// read has the `formattedtime` text, the `name` string and the `course.summary` string of
/// the `k`-th item.
pub proof fn calendar_reads_every_event(parsed: Result<JsonModel, Seq<char>>)
    ensures
        parsed matches Err(m) ==> spec_calendar(parsed) == Err::<Option<Seq<EventModel>>, Seq<char>>(m),
        parsed is Ok && spec_event_list(parsed) is None ==> spec_calendar(parsed) == Ok::<
            Option<Seq<EventModel>>,
            Seq<char>,
        >(None),
        spec_event_list(parsed) matches Some(items) ==> (spec_calendar(parsed) matches Ok(Some(events))
            && events.len() == items.len() && forall|k: int|
            0 <= k < items.len() ==> {
                let item = json_parse(#[trigger] items[k]);
                &&& events[k].0 == spec_field(item, "formattedtime"@)
                &&& events[k].1 == (match spec_field(item, "name"@) {
                    Some(t) => spec_as_str(json_parse(t)),
                    None => None,
                })
                &&& events[k].2 == (match spec_field(item, "course"@) {
                    Some(c) => match spec_field(json_parse(c), "summary"@) {
                        Some(t) => spec_as_str(json_parse(t)),
                        None => None,
                    },
                    None => None,
                })
            }),
{
    if let Some(items) = spec_event_list(parsed) {
        assert(parsed is Ok) by {
            if parsed is Err {
                assert(spec_item(parsed, 0) is None);
            }
        }
    }
}

/// The reminder text names the assignment, and the number in it reads back as the hours.
pub proof fn reminder_text_reads_back(name: Seq<char>, hours: i64)
    ensures
        ({
            let text = spec_reminder_text(name, hours as int);
            let number = text.subrange(15 + name.len() as int, text.len() - 7);
            &&& text.subrange(0, 11) == "assignment "@
            &&& text.subrange(11, 11 + name.len() as int) == name
            &&& text.subrange(text.len() - 7, text.len() as int) == " hours."@
            &&& spec_parse_i64(number) == Some(hours as int)
        }),
{
    reveal_strlit("assignment ");
    reveal_strlit(" in ");
    reveal_strlit(" hours.");
    decimal_round_trip(hours);
    let d = signed_decimal(hours as int);
    let text = spec_reminder_text(name, hours as int);
    assert(text == "assignment "@ + name + " in "@ + d + " hours."@);
    assert(text.subrange(0, 11) =~= "assignment "@);
    assert(text.subrange(11, 11 + name.len() as int) =~= name);
    assert(text.subrange(text.len() - 7, text.len() as int) =~= " hours."@);
    assert(text.subrange(15 + name.len() as int, text.len() - 7) =~= d);
}

/// The console line says "was" exactly for a past event, and the number in it reads back as
/// the size of the hours.
pub proof fn hours_line_reads_back(hours: i64)
    requires
        hours > i64::MIN,
    ensures
        ({
            let line = spec_hours_line(hours as int);
            let magnitude: int = if hours < 0 {
                -hours
            } else {
                hours as int
            };
            &&& hours < 0 ==> line.subrange(0, 15) == "This event was "@ && spec_parse_i64(
                line.subrange(15, line.len() - 11),
            ) == Some(magnitude) && line.subrange(line.len() - 11, line.len() as int)
                == " hours ago!"@
            &&& hours >= 0 ==> line.subrange(0, 17) == "This event is in "@ && spec_parse_i64(
                line.subrange(17, line.len() - 7),
            ) == Some(magnitude) && line.subrange(line.len() - 7, line.len() as int)
                == " hours!"@
        }),
{
    reveal_strlit("This event was ");
    reveal_strlit(" hours ago!");
    reveal_strlit("This event is in ");
    reveal_strlit(" hours!");
    let line = spec_hours_line(hours as int);
    if hours < 0 {
        let m: i64 = (-hours) as i64;
        decimal_round_trip(m);
        let d = signed_decimal(m as int);
        assert(line == "This event was "@ + d + " hours ago!"@);
        assert(line.subrange(0, 15) =~= "This event was "@);
        assert(line.subrange(15, line.len() - 11) =~= d);
        assert(line.subrange(line.len() - 11, line.len() as int) =~= " hours ago!"@);
    } else {
        decimal_round_trip(hours);
        let d = signed_decimal(hours as int);
        assert(line == "This event is in "@ + d + " hours!"@);
        assert(line.subrange(0, 17) =~= "This event is in "@);
        assert(line.subrange(17, line.len() - 7) =~= d);
        assert(line.subrange(line.len() - 7, line.len() as int) =~= " hours!"@);
    }
}

} // verus!
