//! The dispatch engine: offered only for a scheduled newsletter, it resolves
//! the recipient set, drives the SMTP transport once per recipient without
//! ever aborting on an individual failure, and reports the tally of
//! successes and failures.

use vstd::prelude::*;
use crate::email::Email;
use crate::newsletter::NewsletterStatus;
use crate::recipients::{
    ids_of, resolve_recipients, spec_recipient_ids, ContactListMember, ContactRecord,
};

verus! {

/// The slice of a sending that dispatch reads.
#[derive(Clone, Debug)]
pub struct NewsletterForSend {
    pub id: String,
    pub name: String,
    pub status: NewsletterStatus,
    pub content_html: Option<String>,
    pub content_plain: Option<String>,
}

/// Dispatch was requested for a sending that is missing or not scheduled:
/// drafts and already-sent newsletters are never dispatched.
#[derive(Clone, Copy, Debug, PartialEq, Eq, Structural)]
pub enum DispatchError {
    NotFound,
}

/// The per-recipient accounting of one dispatch invocation.
#[derive(Clone, Copy, Debug, PartialEq, Eq, Structural)]
pub struct DispatchOutcome {
    pub sent: usize,
    pub failed: usize,
}

/// How many outcomes in the sequence are successes.
pub open spec fn count_true(rs: Seq<bool>) -> int
    decreases rs.len(),
{
    if rs.len() == 0 {
        0
    } else {
        count_true(rs.drop_last()) + (if rs.last() {
            1int
        } else {
            0int
        })
    }
}

/// The success count never leaves `[0, len]`.
pub proof fn lemma_count_true_bounds(rs: Seq<bool>)
    ensures
        0 <= count_true(rs) <= rs.len(),
    decreases rs.len(),
{
    if rs.len() > 0 {
        lemma_count_true_bounds(rs.drop_last());
    }
}

/// Aggregates per-recipient outcomes: exactly the successes are counted as
/// sent and exactly the failures as failed, so for `k` failures among `n`
/// attempts the outcome is `{sent: n - k, failed: k}`.
pub fn tally_outcomes(results: &Vec<bool>) -> (o: DispatchOutcome)
    ensures
        o.sent == count_true(results@),
        o.failed == results@.len() - count_true(results@),
{
    let n = results.len();
    let mut sent: usize = 0;
    let mut failed: usize = 0;
    let mut i: usize = 0;
    while i < n
        invariant
            0 <= i <= n,
            n == results@.len(),
            sent == count_true(results@.take(i as int)),
            sent + failed == i,
        decreases n - i,
    {
        proof {
            assert(results@.take(i as int + 1).drop_last() =~= results@.take(i as int));
            assert(results@.take(i as int + 1).last() == results@[i as int]);
            lemma_count_true_bounds(results@.take(i as int));
        }
        if results[i] {
            sent += 1;
        } else {
            failed += 1;
        }
        i += 1;
    }
    proof {
        assert(results@.take(n as int) =~= results@);
    }
    DispatchOutcome { sent, failed }
}

/// The body sent for a newsletter: the HTML content where set, else the
/// plain content, else an empty body.
pub open spec fn body_spec(html: Option<String>, plain: Option<String>) -> Seq<char> {
    match html {
        Some(h) => h@,
        None => match plain {
            Some(p) => p@,
            None => Seq::empty(),
        },
    }
}

/// Selects the email body for a newsletter.
pub fn select_body(nl: &NewsletterForSend) -> (b: String)
    ensures
        b@ == body_spec(nl.content_html, nl.content_plain),
{
    match &nl.content_html {
        Some(h) => h.clone(),
        None => match &nl.content_plain {
            Some(p) => p.clone(),
            None => String::new(),
        },
    }
}

/// Drives one send attempt per recipient, in order, recording each outcome
/// and never aborting on a failure.
fn run_sends(
    email: &Email,
    recipients: &Vec<ContactRecord>,
    subject: &String,
    body: &String,
) -> (results: Vec<bool>)
    ensures
        results@.len() == recipients@.len(),
{
    let n = recipients.len();
    let mut results: Vec<bool> = Vec::new();
    let mut i: usize = 0;
    while i < n
        invariant
            0 <= i <= n,
            n == recipients@.len(),
            results@.len() == i,
        decreases n - i,
    {
        let ok = match email.send_email(&recipients[i].email, subject, body) {
            Ok(()) => true,
            Err(_) => false,
        };
        results.push(ok);
        i += 1;
    }
    results
}

/// Dispatches a scheduled newsletter: resolves the recipient set across the
/// associated lists, attempts one delivery per distinct recipient with the
/// newsletter's name as subject, and returns the tally. A sending that is
/// not scheduled is refused with `NotFound` and nothing is sent.
pub fn dispatch(
    nl: &NewsletterForSend,
    lists: &Vec<String>,
    members: &Vec<ContactListMember>,
    contacts: &Vec<ContactRecord>,
    email: &Email,
) -> (r: Result<DispatchOutcome, DispatchError>)
    ensures
        (r is Ok) <==> nl.status is Scheduled,
        r matches Err(e) ==> e is NotFound,
        r matches Ok(o) ==> o.sent + o.failed == spec_recipient_ids(
            contacts@,
            members@,
            lists.deep_view(),
        ).len(),
{
    match nl.status {
        NewsletterStatus::Scheduled => {},
        _ => {
            return Err(DispatchError::NotFound);
        },
    }
    let recipients = resolve_recipients(lists, members, contacts);
    let body = select_body(nl);
    let results = run_sends(email, &recipients, &nl.name, &body);
    let outcome = tally_outcomes(&results);
    proof {
        lemma_count_true_bounds(results@);
        ids_of(recipients@).unique_seq_to_set();
    }
    Ok(outcome)
}

} // verus!
