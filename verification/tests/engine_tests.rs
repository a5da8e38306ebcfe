use newsletter::newsletter::{
    build_sending, decide, InputError, NewsletterRequest, NewsletterStatus,
};
use newsletter::schedule::{parse_schedule_date, ScheduleDate};

fn request(action: &str, send_date: Option<&str>, content_type: &str) -> NewsletterRequest {
    NewsletterRequest {
        name: "June issue".to_string(),
        send_date: send_date.map(|s| s.to_string()),
        content_type: content_type.to_string(),
        content: "<p>hello</p>".to_string(),
        action: action.to_string(),
        contact_list_ids: None,
    }
}

#[test]
fn save_yields_draft_ignoring_send_date() {
    let r = decide(&request("save", Some("2025-01-01T09:00"), "html"), 777).unwrap();
    assert_eq!(r.status, NewsletterStatus::Draft);
    assert!(r.send_date.is_none());
    assert!(r.sent_at.is_none());
    assert_eq!(r.content_html.as_deref(), Some("<p>hello</p>"));
    assert!(r.content_plain.is_none());
}

#[test]
fn save_with_text_content_type_case_insensitive() {
    let r = decide(&request("save", None, "TEXT"), 0).unwrap();
    assert_eq!(r.status, NewsletterStatus::Draft);
    assert_eq!(r.content_plain.as_deref(), Some("<p>hello</p>"));
    assert!(r.content_html.is_none());
}

#[test]
fn send_with_valid_date_yields_scheduled() {
    let r = decide(&request("send", Some("2025-01-01T09:00"), "html"), 777).unwrap();
    assert_eq!(r.status, NewsletterStatus::Scheduled);
    assert_eq!(
        r.send_date,
        Some(ScheduleDate { year: 2025, month: 1, day: 1, hour: 9, minute: 0 })
    );
    assert!(r.sent_at.is_none());
}

#[test]
fn scheduled_action_takes_same_path_as_send() {
    let r = decide(&request("scheduled", Some("2031-12-31T23:59"), "text"), 5).unwrap();
    assert_eq!(r.status, NewsletterStatus::Scheduled);
    assert_eq!(
        r.send_date,
        Some(ScheduleDate { year: 2031, month: 12, day: 31, hour: 23, minute: 59 })
    );
}

#[test]
fn send_with_bad_date_is_rejected() {
    let e = decide(&request("send", Some("2025-13-01T09:00"), "html"), 0).unwrap_err();
    assert_eq!(e, InputError::InvalidDateFormat);
    let e = decide(&request("scheduled", Some("not a date"), "html"), 0).unwrap_err();
    assert_eq!(e, InputError::InvalidDateFormat);
    let e = decide(&request("send", Some("2025-02-30T09:00"), "html"), 0).unwrap_err();
    assert_eq!(e, InputError::InvalidDateFormat);
}

#[test]
fn send_without_date_is_sent_now() {
    let now = 1735721999_i64;
    let r = decide(&request("send", None, "html"), now).unwrap();
    assert_eq!(r.status, NewsletterStatus::Sent);
    assert!(r.send_date.is_none());
    assert_eq!(r.sent_at, Some(now));
}

#[test]
fn unrecognized_action_is_rejected() {
    let e = decide(&request("publish", Some("2025-01-01T09:00"), "html"), 0).unwrap_err();
    assert_eq!(e, InputError::InvalidAction);
}

#[test]
fn unrecognized_content_type_is_rejected() {
    let e = decide(&request("save", None, "markdown"), 0).unwrap_err();
    assert_eq!(e, InputError::InvalidContentType);
}

#[test]
fn rejected_request_builds_no_sending() {
    let user = "user-1".to_string();
    let r = build_sending(&request("publish", None, "html"), &user, 0);
    assert!(matches!(r, Err(InputError::InvalidAction)));
}

#[test]
fn build_sending_carries_decision_and_fresh_id() {
    let user = "user-1".to_string();
    let mut req = request("send", Some("2025-01-01T09:00"), "html");
    req.contact_list_ids = Some(vec!["l1".to_string(), "l1".to_string(), "l2".to_string()]);
    let (s, lists) = build_sending(&req, &user, 42).unwrap();
    assert_eq!(s.id.len(), 36);
    assert_eq!(s.name, "June issue");
    assert_eq!(s.sent_by, "user-1");
    assert_eq!(s.status, NewsletterStatus::Scheduled);
    assert_eq!(lists.len(), 2);
}

#[test]
fn parse_schedule_date_exact_value() {
    let d = parse_schedule_date("2025-01-01T09:00").unwrap();
    assert_eq!(d, ScheduleDate { year: 2025, month: 1, day: 1, hour: 9, minute: 0 });
}

#[test]
fn parse_schedule_date_leap_years() {
    assert!(parse_schedule_date("2024-02-29T00:00").is_some());
    assert!(parse_schedule_date("2023-02-29T00:00").is_none());
    assert!(parse_schedule_date("2000-02-29T00:00").is_some());
    assert!(parse_schedule_date("1900-02-29T00:00").is_none());
}

#[test]
fn parse_schedule_date_field_ranges() {
    assert!(parse_schedule_date("2025-00-01T09:00").is_none());
    assert!(parse_schedule_date("2025-12-31T23:59").is_some());
    assert!(parse_schedule_date("2025-04-31T10:00").is_none());
    assert!(parse_schedule_date("2025-01-01T24:00").is_none());
    assert!(parse_schedule_date("2025-01-01T09:60").is_none());
    assert!(parse_schedule_date("2025-01-00T09:00").is_none());
}

#[test]
fn parse_schedule_date_shape() {
    assert!(parse_schedule_date("").is_none());
    assert!(parse_schedule_date("2025-01-01 09:00").is_none());
    assert!(parse_schedule_date("2025-01-01T09:00:00").is_none());
    assert!(parse_schedule_date("25-01-01T09:00").is_none());
    assert!(parse_schedule_date("2025/01/01T09:00").is_none());
}

#[test]
fn status_db_names() {
    assert_eq!(NewsletterStatus::Draft.db_name(), "draft");
    assert_eq!(NewsletterStatus::Scheduled.db_name(), "scheduled");
    assert_eq!(NewsletterStatus::Sent.db_name(), "sent");
}

#[test]
fn input_error_messages() {
    assert_eq!(InputError::InvalidAction.message(), "invalid action");
    assert_eq!(InputError::InvalidDateFormat.message(), "invalid date format");
    assert_eq!(InputError::InvalidContentType.message(), "invalid content type");
}
