//! The SMTP transport boundary: a mail client built once from configuration
//! and offering a single per-recipient send operation. The network decides
//! each outcome, so the trusted items promise nothing of it; the dispatch
//! engine accounts for every outcome either way.

use vstd::prelude::*;
use crate::config::EmailConfig;
use lettre::message::Mailbox;
use lettre::transport::smtp::authentication::Credentials;
use lettre::transport::smtp::client::{Tls, TlsParameters};
use lettre::SmtpTransport;

verus! {

/// Timeout applied to each SMTP command, in seconds.
pub const SMTP_TIMEOUT_SECS: u64 = 6;

#[verifier::external_type_specification]
#[verifier::external_body]
pub struct ExSmtpTransport(SmtpTransport);

#[verifier::external_type_specification]
#[verifier::external_body]
pub struct ExMailbox(Mailbox);

/// A delivery the relay did not accept for one recipient: recorded in the
/// dispatch tally, never propagated as a request-level failure.
#[derive(Clone, Copy, Debug, PartialEq, Eq, Structural)]
pub struct TransportError;

/// Relies on lettre's `SmtpTransport` builder: `relay` prepares a TLS
/// connection to the host, and credentials, port, TLS mode and timeout are
/// transport configuration. `None` where `relay` or the TLS parameters are
/// refused for the host name.
#[verifier::external_body]
fn build_transport(
    host: &String,
    port: u16,
    user: &String,
    password: &String,
    starttls: bool,
    timeout_secs: u64,
) -> (r: Option<SmtpTransport>) {
    let creds = Credentials::new(user.clone(), password.clone());
    let params = TlsParameters::new(host.clone()).ok()?;
    let tls = if starttls {
        Tls::Required(params)
    } else {
        Tls::Wrapper(params)
    };
    let builder = SmtpTransport::relay(host.as_str()).ok()?;
    Some(
        builder.credentials(creds).port(port).tls(tls).timeout(
            Some(core::time::Duration::from_secs(timeout_secs)),
        ).build(),
    )
}

/// Relies on lettre's `Mailbox::new` and address parsing: `None` where the
/// sender address is not a valid email address.
#[verifier::external_body]
fn make_mailbox(name: &String, email: &String) -> (r: Option<Mailbox>) {
    let addr = email.as_str().parse().ok()?;
    Some(Mailbox::new(Some(name.clone()), addr))
}

/// Relies on lettre's `Message` builder and `SmtpTransport::send`: true
/// exactly when the recipient address parsed, the message was assembled and
/// the relay accepted it. The outcome depends on the network, so nothing
/// more is promised.
#[verifier::external_body]
fn transport_send(
    mailer: &SmtpTransport,
    from: &Mailbox,
    to: &String,
    subject: &String,
    body: &String,
) -> (r: bool) {
    let Ok(to_mbox) = to.as_str().parse::<Mailbox>() else { return false };
    let built = lettre::Message::builder().from(from.clone()).to(to_mbox).subject(
        subject.clone(),
    ).header(lettre::message::header::ContentType::TEXT_HTML).body(body.clone());
    match built {
        Ok(m) => lettre::Transport::send(mailer, &m).is_ok(),
        Err(_) => false,
    }
}

/// The configured mail client: the relay transport and the sender mailbox.
pub struct Email {
    mailer: SmtpTransport,
    from: Mailbox,
}

impl Email {
    /// Builds the mail client from configuration: relay host and port,
    /// credentials, and the TLS mode selected by the STARTTLS flag. `None`
    /// where the host name or the sender address is refused.
    pub fn new(config: &EmailConfig) -> (r: Option<Email>) {
        let mailer = match build_transport(
            &config.smtp.server_host,
            config.smtp.server_port,
            &config.smtp.auth_user,
            &config.smtp.auth_password,
            config.smtp.server_starttls,
            SMTP_TIMEOUT_SECS,
        ) {
            Some(m) => m,
            None => {
                return None;
            },
        };
        let from = match make_mailbox(&config.identity.from_name, &config.identity.from_email) {
            Some(f) => f,
            None => {
                return None;
            },
        };
        Some(Email { mailer, from })
    }

    /// Attempts one delivery to one recipient. An `Err` records a
    /// per-recipient transport failure; whether the relay accepts is up to
    /// the network.
    pub fn send_email(&self, to: &String, subject: &String, body: &String) -> (r: Result<
        (),
        TransportError,
    >) {
        if transport_send(&self.mailer, &self.from, to, subject, body) {
            Ok(())
        } else {
            Err(TransportError)
        }
    }
}

} // verus!
