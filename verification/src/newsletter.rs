//! The newsletter status engine: a pure decision function that fixes a
//! newsletter's persisted status, stored schedule date and sent timestamp
//! from the operator-supplied action, optional schedule string and content
//! type. It is deterministic in its inputs; the caller supplies the current
//! time.

use vstd::prelude::*;
use crate::schedule::{parse_schedule_date, parsed_schedule, valid_schedule_str, ScheduleDate};
use crate::strings::{eq_ignore_ascii_case, eq_ignore_ascii_case_spec, str_eq};

verus! {

broadcast use vstd::string::group_string_axioms;

/// The body of a newsletter-creation request.
#[derive(Clone, Debug)]
pub struct NewsletterRequest {
    pub name: String,
    pub send_date: Option<String>,
    pub content_type: String,
    pub content: String,
    pub action: String,
    pub contact_list_ids: Option<Vec<String>>,
}

/// The status vocabulary of a sending: fixed at creation time, `Scheduled`
/// being the only status from which dispatch is offered.
#[derive(Clone, Copy, Debug, PartialEq, Eq, Structural)]
pub enum NewsletterStatus {
    Draft,
    Scheduled,
    Sent,
}

impl NewsletterStatus {
    /// The lower-case name under which the status is persisted.
    pub fn db_name(&self) -> (r: String)
        ensures
            self is Draft ==> r@ == "draft"@,
            self is Scheduled ==> r@ == "scheduled"@,
            self is Sent ==> r@ == "sent"@,
    {
        match self {
            NewsletterStatus::Draft => "draft".to_owned(),
            NewsletterStatus::Scheduled => "scheduled".to_owned(),
            NewsletterStatus::Sent => "sent".to_owned(),
        }
    }
}

/// A rejected creation request: malformed action, schedule date or content
/// type. Detected before any store mutation.
#[derive(Clone, Copy, Debug, PartialEq, Eq, Structural)]
pub enum InputError {
    InvalidAction,
    InvalidDateFormat,
    InvalidContentType,
}

impl InputError {
    /// The message reported to the operator.
    pub fn message(&self) -> (r: String)
        ensures
            self is InvalidAction ==> r@ == "invalid action"@,
            self is InvalidDateFormat ==> r@ == "invalid date format"@,
            self is InvalidContentType ==> r@ == "invalid content type"@,
    {
        match self {
            InputError::InvalidAction => "invalid action".to_owned(),
            InputError::InvalidDateFormat => "invalid date format".to_owned(),
            InputError::InvalidContentType => "invalid content type".to_owned(),
        }
    }
}

/// What the status engine decides: the status and timestamps to persist, and
/// the single content field populated according to the content type.
#[derive(Clone, Debug)]
pub struct StatusDecision {
    pub status: NewsletterStatus,
    pub send_date: Option<ScheduleDate>,
    pub sent_at: Option<i64>,
    pub content_html: Option<String>,
    pub content_plain: Option<String>,
}

pub open spec fn action_is_save(a: Seq<char>) -> bool {
    a == "save"@
}

/// Both immediate-send spellings take the same path.
pub open spec fn action_is_send(a: Seq<char>) -> bool {
    a == "send"@ || a == "scheduled"@
}

pub open spec fn action_recognized(a: Seq<char>) -> bool {
    action_is_save(a) || action_is_send(a)
}

pub open spec fn content_type_is_text(ct: Seq<char>) -> bool {
    eq_ignore_ascii_case_spec(ct, "text"@)
}

pub open spec fn content_type_is_html(ct: Seq<char>) -> bool {
    eq_ignore_ascii_case_spec(ct, "html"@)
}

pub open spec fn content_type_recognized(ct: Seq<char>) -> bool {
    content_type_is_text(ct) || content_type_is_html(ct)
}

/// The error, if any, with which the engine rejects the request: an
/// unrecognized action first, then an unparsable schedule date, then an
/// unrecognized content type.
pub open spec fn engine_error(req: NewsletterRequest) -> Option<InputError> {
    if !action_recognized(req.action@) {
        Some(InputError::InvalidAction)
    } else if action_is_send(req.action@) && (match req.send_date {
        Some(s) => !valid_schedule_str(s@),
        None => false,
    }) {
        Some(InputError::InvalidDateFormat)
    } else if !content_type_recognized(req.content_type@) {
        Some(InputError::InvalidContentType)
    } else {
        None
    }
}

/// What an accepted request's decision holds: `save` yields a draft with no
/// timestamps; `send`/`scheduled` with a schedule date yields `Scheduled`
/// echoing the parsed instant; the same actions with no date yield `Sent`
/// stamped with the caller's current time. Exactly the one content field
/// selected by the content type is populated.
pub open spec fn decision_matches(req: NewsletterRequest, now: i64, d: StatusDecision) -> bool {
    &&& if action_is_save(req.action@) {
        &&& d.status is Draft
        &&& d.send_date is None
        &&& d.sent_at is None
    } else {
        match req.send_date {
            Some(s) => {
                &&& d.status is Scheduled
                &&& d.send_date == Some(parsed_schedule(s@))
                &&& d.sent_at is None
            },
            None => {
                &&& d.status is Sent
                &&& d.send_date is None
                &&& d.sent_at == Some(now)
            },
        }
    }
    &&& if content_type_is_text(req.content_type@) {
        &&& d.content_plain matches Some(c) && c@ == req.content@
        &&& d.content_html is None
    } else {
        &&& d.content_html matches Some(c) && c@ == req.content@
        &&& d.content_plain is None
    }
}

/// The status engine. Pure and deterministic: `now` is the caller's reading
/// of the current time, stamped on the immediate-send path.
pub fn decide(req: &NewsletterRequest, now: i64) -> (r: Result<StatusDecision, InputError>)
    ensures
        match r {
            Ok(d) => engine_error(*req) is None && decision_matches(*req, now, d),
            Err(e) => engine_error(*req) == Some(e),
        },
{
    proof {
        reveal_strlit("save");
        reveal_strlit("send");
        reveal_strlit("scheduled");
        // "save" differs from "send" at index 1 and from "scheduled" in length.
        assert("save"@[1] == 'a' && "send"@[1] == 'e');
        assert("save"@.len() == 4 && "scheduled"@.len() == 9);
    }
    let is_save = str_eq(req.action.as_str(), "save");
    let is_send = str_eq(req.action.as_str(), "send") || str_eq(req.action.as_str(), "scheduled");
    if !is_save && !is_send {
        return Err(InputError::InvalidAction);
    }
    let (status, send_date, sent_at): (NewsletterStatus, Option<ScheduleDate>, Option<i64>) =
        if is_save {
        (NewsletterStatus::Draft, None, None)
    } else {
        match &req.send_date {
            Some(sd) => {
                match parse_schedule_date(sd.as_str()) {
                    Some(d) => (NewsletterStatus::Scheduled, Some(d), None),
                    None => {
                        return Err(InputError::InvalidDateFormat);
                    },
                }
            },
            None => (NewsletterStatus::Sent, None, Some(now)),
        }
    };
    let is_text = eq_ignore_ascii_case(req.content_type.as_str(), "text");
    let is_html = eq_ignore_ascii_case(req.content_type.as_str(), "html");
    if !is_text && !is_html {
        return Err(InputError::InvalidContentType);
    }
    let (content_plain, content_html): (Option<String>, Option<String>) = if is_text {
        (Some(req.content.clone()), None)
    } else {
        (None, Some(req.content.clone()))
    };
    Ok(StatusDecision { status, send_date, sent_at, content_html, content_plain })
}

/// A sending row ready to persist: a newsletter with a fresh id, the
/// decision of the status engine, and the identity of the operator who
/// submitted it.
#[derive(Clone, Debug)]
pub struct Sending {
    pub id: String,
    pub name: String,
    pub status: NewsletterStatus,
    pub send_date: Option<ScheduleDate>,
    pub sent_at: Option<i64>,
    pub sent_by: String,
    pub content_html: Option<String>,
    pub content_plain: Option<String>,
}

/// The decision fields of a sending, for stating that a built sending agrees
/// with the status engine.
pub open spec fn sending_decision(s: Sending) -> StatusDecision {
    StatusDecision {
        status: s.status,
        send_date: s.send_date,
        sent_at: s.sent_at,
        content_html: s.content_html,
        content_plain: s.content_plain,
    }
}

/// The computation behind newsletter creation: runs the status engine on the
/// request and, when it accepts, builds the sending row to persist together
/// with the deduplicated contact-list ids to associate. Rejected requests
/// yield the engine's error and nothing to persist.
pub fn build_sending(req: &NewsletterRequest, user_id: &String, now: i64) -> (r: Result<
    (Sending, Vec<String>),
    InputError,
>)
    ensures
        match r {
            Ok((s, lists)) => {
                &&& engine_error(*req) is None
                &&& decision_matches(*req, now, sending_decision(s))
                &&& s.id@.len() == 36
                &&& s.name@ == req.name@
                &&& s.sent_by@ == user_id@
                &&& match req.contact_list_ids {
                    Some(v) => crate::assoc::deduplicates(v.deep_view(), lists.deep_view()),
                    None => lists@.len() == 0,
                }
            },
            Err(e) => engine_error(*req) == Some(e),
        },
{
    let decision = decide(req, now)?;
    let lists: Vec<String> = match &req.contact_list_ids {
        Some(v) => crate::assoc::dedup_ids(v),
        None => Vec::new(),
    };
    let sending = Sending {
        id: crate::ids::new_id(),
        name: req.name.clone(),
        status: decision.status,
        send_date: decision.send_date,
        sent_at: decision.sent_at,
        sent_by: user_id.clone(),
        content_html: decision.content_html,
        content_plain: decision.content_plain,
    };
    Ok((sending, lists))
}

/// Unpacks the comma-joined contact-list names carried on a newsletter
/// listing row; a row with no associated list yields no names.
pub fn split_list_names(joined: Option<&String>) -> (r: Vec<String>)
    ensures
        match joined {
            Some(s) => r.deep_view() == crate::strings::split_spec(s@, ','),
            None => r@.len() == 0,
        },
{
    match joined {
        Some(s) => crate::strings::split_on(s.as_str(), ','),
        None => Vec::new(),
    }
}

} // verus!
