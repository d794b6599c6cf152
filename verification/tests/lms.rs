use vertex::json::Json;
use vertex::reminders::calendar_from_json;
use vertex::assignments_lms::{
    assignment_from_page, assignment_view_url, events_request_body, events_url, timesort_from,
    Assignment,
};
use vertex::background::{refresh_step, touch_reply, RefreshCommand, RefreshEvent, RefreshPhase, TouchReply};
use vertex::errors::Error;
use vertex::reminders::{
    credentials_for_check, event_time, hours_line, hours_until, reminder_text, reminders_from_reply,
    EventReminder, ReminderError, MAX_TIMESTAMP, MIN_TIMESTAMP,
};
use vertex::tray::{menu_action, MenuAction};
use vertex::types::{LoginPayload, Service};

#[test]
fn assignment_new_keeps_fields() {
    let a = Assignment::new(
        "42".to_string(),
        "o".to_string(),
        "d".to_string(),
        vec![("u".to_string(), "t".to_string())],
    );
    assert_eq!(a.id, "42");
    assert_eq!(a.opened_date, "o");
    assert_eq!(a.due_date, "d");
    assert_eq!(a.file_url, vec![("u".to_string(), "t".to_string())]);
}

#[test]
fn calendar_request() {
    assert_eq!(
        events_url(&Service::LMS, "s1"),
        "https://lms.vit.ac.in/lib/ajax/service.php?sesskey=s1&info=core_calendar_get_action_events_by_timesort"
    );
    assert_eq!(timesort_from(1_800_000_000), 1_798_790_400);
    let body = events_request_body(1_798_790_400);
    let v: serde_json::Value = serde_json::from_str(&body).unwrap();
    assert_eq!(v[0]["index"], 0);
    assert_eq!(v[0]["methodname"], "core_calendar_get_action_events_by_timesort");
    assert_eq!(v[0]["args"]["limitnum"], 26);
    assert_eq!(v[0]["args"]["timesortfrom"], 1_798_790_400u64);
    assert_eq!(v[0]["args"]["limittononsuspendedevents"], true);
}

#[test]
fn assignment_page_is_read() {
    let page = "<html><body>\
        <div data-region=\"activity-dates\">\n\
        <div>\n <strong>Opened:</strong>\n Monday, 1 January 2024, 12:00 AM\n</div>\n\
        <div>\n <strong>Due:</strong>\n Monday, 8 January 2024, 11:59 PM\n</div>\n\
        </div>\
        <div class=\"fileuploadsubmission\"><a href=\"https://lms.vit.ac.in/pluginfile.php/1/report.pdf\">report<b>.pdf</b></a></div>\
        <div class=\"fileuploadsubmission\"><a>no address</a></div>\
        </body></html>";
    assert_eq!(
        assignment_view_url(&Service::LMS, "77"),
        "https://lms.vit.ac.in/mod/assign/view.php?id=77"
    );
    let a = assignment_from_page("77".to_string(), page).unwrap();
    assert_eq!(a.id, "77");
    assert_eq!(a.opened_date, "Monday, 1 January 2024, 12:00 AM");
    assert_eq!(a.due_date, "Monday, 8 January 2024, 11:59 PM");
    assert_eq!(
        a.file_url,
        vec![(
            "https://lms.vit.ac.in/pluginfile.php/1/report.pdf".to_string(),
            "report.pdf".to_string()
        )]
    );
}

#[test]
fn assignment_page_without_dates() {
    let a = assignment_from_page("1".to_string(), "<p>nothing</p>").unwrap();
    assert_eq!(a.opened_date, "Not Found");
    assert_eq!(a.due_date, "Not Found");
    assert!(a.file_url.is_empty());
}

#[test]
fn event_time_cases() {
    let link = "\"<a href=\\\"https://lms.vit.ac.in/calendar/view.php?view=day&amp;time=1717000000\\\">Wednesday, 29 May</a>\"";
    assert_eq!(event_time(link), Ok(1717000000));
    assert_eq!(event_time("\"Tomorrow\""), Err(ReminderError::NoTime));
    assert_eq!(event_time("time=99999999999999999999"), Err(ReminderError::NotANumber));
    assert_eq!(event_time("time=9223372036854775807"), Err(ReminderError::OutOfRange));
    assert_eq!(event_time("time=١٢٣"), Err(ReminderError::NotANumber));
    assert_eq!(event_time("a time=12 b time=34"), Ok(12));
}

#[test]
fn hours_until_cases() {
    let now = 1_700_000_000i64;
    assert_eq!(hours_until(now + 7200, now, 0), 2);
    assert_eq!(hours_until(now + 7199, now, 0), 1);
    assert_eq!(hours_until(now + 3600, now, 1), 0);
    assert_eq!(hours_until(now - 3600, now, 0), -1);
    assert_eq!(hours_until(now - 3599, now, 999_999_999), 0);
    assert_eq!(hours_until(now - 3599, now, 0), 0);
    assert_eq!(hours_until(now, now, 500), 0);
}

#[test]
fn reminder_texts() {
    assert_eq!(hours_line(5), "This event is in 5 hours!");
    assert_eq!(hours_line(0), "This event is in 0 hours!");
    assert_eq!(hours_line(-3), "This event was 3 hours ago!");
    assert_eq!(reminder_text("DA1", 12), "assignment DA1 in 12 hours.");
    assert_eq!(reminder_text("DA1", -2), "assignment DA1 in -2 hours.");
}

#[test]
fn check_credentials() {
    let ok = credentials_for_check(Ok(LoginPayload::new("u".to_string(), "p".to_string())));
    assert_eq!(ok.unwrap().username, "u");
    match credentials_for_check(Err(Error::StoreError)) {
        Err(Error::AuthError(m)) => assert_eq!(m, "failed to get entry for user"),
        _ => panic!("expected an auth error"),
    }
}

#[test]
fn refresh_loop_round() {
    let s = refresh_step(RefreshPhase::Sleeping, RefreshEvent::Woke);
    assert_eq!(s.phase, RefreshPhase::FetchingSesskey);
    assert!(matches!(s.command, RefreshCommand::FetchSesskey));
    let s = refresh_step(RefreshPhase::FetchingSesskey, RefreshEvent::Sesskey(Ok("kk".to_string())));
    assert_eq!(s.phase, RefreshPhase::Touching);
    match s.command {
        RefreshCommand::Send { url, body } => {
            assert_eq!(
                url,
                "https://lms.vit.ac.in/lib/ajax/service.php?sesskey=kk&info=core_session_touch"
            );
            let v: serde_json::Value = serde_json::from_str(&body).unwrap();
            assert_eq!(v[0]["methodname"], "core_session_touch");
        }
        _ => panic!("expected a request"),
    }
    let s = refresh_step(RefreshPhase::Touching, RefreshEvent::Sent(true));
    assert_eq!(s.phase, RefreshPhase::Reading);
    let s = refresh_step(RefreshPhase::Reading, RefreshEvent::Replied("[{\"error\":false,\"data\":null}]".to_string()));
    assert_eq!(s.phase, RefreshPhase::Sleeping);
    let l = s.log.unwrap();
    assert_eq!(l.text, "refreshed session");
    assert!(!l.is_error);
    assert!(matches!(s.command, RefreshCommand::Sleep(120)));
}

#[test]
fn refresh_loop_failures() {
    let cases = vec![
        (RefreshPhase::FetchingSesskey, RefreshEvent::Sesskey(Err(Error::StoreError)), Some("failed to fetch sesskey")),
        (RefreshPhase::Touching, RefreshEvent::Sent(false), Some("error while fetching refresh url")),
        (RefreshPhase::Reading, RefreshEvent::Replied("<html>".to_string()), Some("error while parsing response")),
        (RefreshPhase::Reading, RefreshEvent::Replied("[{\"error\":\"no\"}]".to_string()), Some("error while refreshing session")),
        (RefreshPhase::Reading, RefreshEvent::Replied("[{\"error\":true}]".to_string()), Some("error while refreshing session")),
        (RefreshPhase::Reading, RefreshEvent::Replied("[]".to_string()), None),
        (RefreshPhase::Sleeping, RefreshEvent::Sent(true), None),
    ];
    for (phase, event, log) in cases {
        let s = refresh_step(phase, event);
        assert_eq!(s.phase, RefreshPhase::Sleeping);
        assert!(matches!(s.command, RefreshCommand::Sleep(120)));
        match log {
            Some(text) => {
                let l = s.log.unwrap();
                assert_eq!(l.text, text);
                assert!(l.is_error);
            }
            None => assert!(s.log.is_none()),
        }
    }
}

#[test]
fn tray_menu() {
    assert_eq!(menu_action("quit"), MenuAction::Quit);
    assert_eq!(menu_action("check_lms"), MenuAction::CheckLms);
    assert_eq!(menu_action("other"), MenuAction::Unhandled);
}

#[test]
fn chrono_range_bounds() {
    assert_eq!(event_time(&format!("time={}", MAX_TIMESTAMP)), Ok(MAX_TIMESTAMP));
    assert_eq!(event_time(&format!("time={}", MAX_TIMESTAMP + 1)), Err(ReminderError::OutOfRange));
    assert!(chrono::DateTime::from_timestamp(MIN_TIMESTAMP, 0).is_some());
    assert!(chrono::DateTime::from_timestamp(MIN_TIMESTAMP - 1, 0).is_none());
    assert!(chrono::DateTime::from_timestamp(MAX_TIMESTAMP, 0).is_some());
    assert!(chrono::DateTime::from_timestamp(MAX_TIMESTAMP + 1, 0).is_none());
}

fn calendar_reply(events: &str) -> String {
    format!("[{{\"error\":false,\"data\":{{\"events\":[{}],\"firstid\":1}}}}]", events)
}

#[test]
fn reminders_from_a_calendar_reply() {
    let now = 1_700_000_000i64;
    let ev = |t: i64, name: &str, course: &str| {
        format!(
            "{{\"name\":\"{}\",\"formattedtime\":\"<a href=\\\"https://lms.vit.ac.in/calendar/view.php?view=day&amp;time={}\\\">Today</a>\",\"course\":{{\"summary\":\"{}\"}}}}",
            name, t, course
        )
    };
    let reply = calendar_reply(&format!("{},{}", ev(now + 7200, "DA1", "Maths"), ev(now - 3 * 3600, "Quiz", "Physics")));
    let rs = reminders_from_reply(&reply, now, 0).unwrap().unwrap();
    assert_eq!(rs.len(), 2);
    match &rs[0] {
        EventReminder::Ready(r) => {
            assert_eq!(r.title, "Maths");
            assert_eq!(r.body, "assignment DA1 in 2 hours.");
            assert_eq!(r.console_line, "This event is in 2 hours!");
        }
        _ => panic!("expected a reminder"),
    }
    match &rs[1] {
        EventReminder::Ready(r) => {
            assert_eq!(r.title, "Physics");
            assert_eq!(r.body, "assignment Quiz in -3 hours.");
            assert_eq!(r.console_line, "This event was 3 hours ago!");
        }
        _ => panic!("expected a reminder"),
    }
}

#[test]
fn calendar_reply_failures() {
    match reminders_from_reply("not json", 0, 0) {
        Err(Error::InvalidJSONFormat(m)) => assert!(!m.is_empty()),
        _ => panic!("expected a JSON error"),
    }
    assert!(reminders_from_reply("[{\"error\":true}]", 0, 0).unwrap().is_none());
    assert!(reminders_from_reply(&calendar_reply(""), 0, 0).unwrap().unwrap().is_empty());
    let rs = reminders_from_reply(
        &calendar_reply("{\"name\":\"x\"},{\"formattedtime\":\"time=3600\",\"course\":{\"summary\":\"c\"}},{\"formattedtime\":\"time=3600\",\"name\":\"n\"},{\"formattedtime\":\"soon\"}"),
        0,
        0,
    )
    .unwrap()
    .unwrap();
    assert_eq!(rs.len(), 4);
    assert!(matches!(rs[0], EventReminder::TimeUnreadable(ReminderError::NoFormattedTime)));
    match &rs[1] {
        EventReminder::MissingName(l) => assert_eq!(l, "This event is in 1 hours!"),
        _ => panic!("expected a missing name"),
    }
    match &rs[2] {
        EventReminder::MissingCourse(l) => assert_eq!(l, "This event is in 1 hours!"),
        _ => panic!("expected a missing course"),
    }
    assert!(matches!(rs[3], EventReminder::TimeUnreadable(ReminderError::NoTime)));
}


#[test]
fn touch_reply_cases() {
    assert_eq!(touch_reply(&Err("x".to_string())), TouchReply::NotJson);
    assert_eq!(touch_reply(&Ok(Json::Object(Vec::new()))), TouchReply::NotJson);
    assert_eq!(touch_reply(&Ok(Json::Array(Vec::new()))), TouchReply::Empty);
    assert_eq!(
        touch_reply(&Ok(Json::Array(vec!["{\"error\":false}".to_string(), "1".to_string()]))),
        TouchReply::First(Some(false))
    );
    assert_eq!(touch_reply(&Ok(Json::Array(vec!["7".to_string()]))), TouchReply::First(None));
    let s = refresh_step(RefreshPhase::Reading, RefreshEvent::Replied("{\"error\":false}".to_string()));
    assert_eq!(s.log.unwrap().text, "error while parsing response");
}

#[test]
fn calendar_events_from_parsed_values() {
    let parsed = Ok(Json::Array(vec![
        "{\"data\":{\"events\":[{\"formattedtime\":\"time=5\",\"name\":\"N\",\"course\":{\"summary\":\"S\"}},{\"name\":3}]}}".to_string(),
    ]));
    let events = calendar_from_json(parsed).unwrap().unwrap();
    assert_eq!(events.len(), 2);
    assert_eq!(events[0].formatted_time.as_deref(), Some("\"time=5\""));
    assert_eq!(events[0].name.as_deref(), Some("N"));
    assert_eq!(events[0].course_summary.as_deref(), Some("S"));
    assert_eq!(events[1].formatted_time, None);
    assert_eq!(events[1].name, None);
    assert!(calendar_from_json(Ok(Json::Array(Vec::new()))).unwrap().is_none());
    assert!(calendar_from_json(Ok(Json::Null)).unwrap().is_none());
    assert_eq!(calendar_from_json(Err("bad".to_string())).err(), Some("bad".to_string()));
}
