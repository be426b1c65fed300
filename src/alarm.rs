//! The alert notifier: a mail transport bound to a relay, the addresses
//! alerts go from and to, the alert message itself, and the rule for what is
//! logged after a delivery.
//!
//! Rendering the batch of findings into the body and handing the message to
//! the transport are done by the caller.
use vstd::prelude::*;
use lettre::address::AddressError;
use lettre::error::Error as EmailError;
use lettre::message::header::ContentType;
use lettre::message::Mailbox;
use lettre::transport::smtp::authentication::Credentials;
use lettre::transport::smtp::Error;
use lettre::{Message, SmtpTransport};

verus! {

#[verifier::external_type_specification]
#[verifier::external_body]
pub struct ExSmtpTransport(SmtpTransport);

#[verifier::external_type_specification]
#[verifier::external_body]
pub struct ExSmtpError(Error);

#[verifier::external_type_specification]
#[verifier::external_body]
pub struct ExMessage(Message);

#[verifier::external_type_specification]
#[verifier::external_body]
pub struct ExMailbox(Mailbox);

#[verifier::external_type_specification]
#[verifier::external_body]
pub struct ExAddressError(AddressError);

#[verifier::external_type_specification]
#[verifier::external_body]
pub struct ExEmailError(EmailError);

/// Whether lettre reads `s` as a mailbox (`Name <user@domain>` or `user@domain`).
pub uninterp spec fn parses_as_mailbox(s: Seq<char>) -> bool;

/// Relies on lettre's `FromStr` for `Mailbox`: it succeeds exactly on the
/// texts that its mailbox grammar accepts, and depends on the text alone.
pub assume_specification[ <Mailbox as core::str::FromStr>::from_str ](src: &str) -> (r: Result<
    Mailbox,
    <Mailbox as core::str::FromStr>::Err,
>)
    ensures
        r is Ok <==> parses_as_mailbox(src@),
;

/// Relies on lettre's `SmtpTransport::starttls_relay` (a STARTTLS builder for
/// the relay, or the error met preparing TLS for it), then on the builder's
/// `port`, `credentials` with `Credentials::new`, and `build`, which only
/// record what they are given.
#[verifier::external_body]
fn starttls_transport(settings: &RelaySettings) -> Result<SmtpTransport, Error> {
    let creds = Credentials::new(settings.username.clone(), settings.password.clone());
    match SmtpTransport::starttls_relay(settings.domain.as_str()) {
        Ok(builder) => Ok(builder.port(settings.port).credentials(creds).build()),
        Err(e) => Err(e),
    }
}

/// Relies on lettre's `Message::builder` and its `from`, `to`, `subject`,
/// `header` (`ContentType::TEXT_PLAIN`) and `body`: with exactly one `From`
/// and one `To` mailbox set, `body` finds every header it checks in place
/// and returns the message.
#[verifier::external_body]
fn assemble_message(from: Mailbox, to: Mailbox, subject: String, body: String) -> (r: Result<
    Message,
    EmailError,
>)
    ensures
        r is Ok,
{
    Message::builder().from(from).to(to).subject(subject).header(ContentType::TEXT_PLAIN).body(body)
}

/// The submission port, used with STARTTLS.
pub const SUBMISSION_PORT: u16 = 587;

/// Subject line of every alert.
pub open spec fn subject_spec() -> Seq<char> {
    "资源监控预警"@
}

/// Where and as whom the notifier connects.
#[derive(Clone)]
pub struct RelaySettings {
    pub domain: String,
    pub port: u16,
    pub username: String,
    pub password: String,
}

/// The parts of an alert mail, before they are handed to lettre.
#[derive(Debug, Clone)]
pub struct Alert {
    pub from: String,
    pub to: String,
    pub subject: String,
    pub body: String,
}

/// Why a notifier or an alert message could not be built.
#[derive(Debug)]
pub enum AlarmError {
    /// The relay's transport could not be prepared.
    Relay(Error),
    /// The sender address is not a mailbox.
    Sender(AddressError),
    /// The recipient address is not a mailbox.
    Recipient(AddressError),
    /// The message could not be assembled.
    Assembly(EmailError),
}

/// Sends alerts from one address to another through an authenticated relay.
pub struct Alarm {
    from: String,
    to: String,
    relay: RelaySettings,
    mailer: SmtpTransport,
}

/// How much a log entry matters.
#[derive(Debug, Clone, Copy, PartialEq, Eq, Structural)]
pub enum LogLevel {
    Info,
    Error,
}

/// One line to log.
#[derive(Debug, Clone)]
pub struct LogEntry {
    pub level: LogLevel,
    pub text: String,
}

pub open spec fn sent_text() -> Seq<char> {
    "Email sent successfully!"@
}

pub open spec fn failed_prefix() -> Seq<char> {
    "Could not send email: "@
}

pub open spec fn unsent_prefix() -> Seq<char> {
    "Unsend mail: "@
}

impl RelaySettings {
    /// The settings for the relay at `domain`: the submission port, logged in
    /// as `username` with `password`.
    pub fn submission(domain: String, username: String, password: String) -> (r: RelaySettings)
        ensures
            r.domain@ == domain@,
            r.port == SUBMISSION_PORT,
            r.username@ == username@,
            r.password@ == password@,
    {
        RelaySettings { domain, port: SUBMISSION_PORT, username, password }
    }
}

impl Alert {
    /// Whether both addresses are mailboxes.
    pub open spec fn addressable(&self) -> bool {
        parses_as_mailbox(self.from@) && parses_as_mailbox(self.to@)
    }

    /// The plain-text mail for this alert. It fails exactly where an address
    /// is not a mailbox, the sender being checked first.
    pub fn compose(self) -> (r: Result<Message, AlarmError>)
        ensures
            !parses_as_mailbox(self.from@) <==> r matches Err(AlarmError::Sender(_)),
            parses_as_mailbox(self.from@) && !parses_as_mailbox(self.to@) <==> r matches Err(
                AlarmError::Recipient(_),
            ),
            self.addressable() <==> r is Ok,
    {
        let sender = match <Mailbox as core::str::FromStr>::from_str(self.from.as_str()) {
            Ok(m) => m,
            Err(e) => return Err(AlarmError::Sender(e)),
        };
        let recipient = match <Mailbox as core::str::FromStr>::from_str(self.to.as_str()) {
            Ok(m) => m,
            Err(e) => return Err(AlarmError::Recipient(e)),
        };
        match assemble_message(sender, recipient, self.subject, self.body) {
            Ok(m) => Ok(m),
            Err(e) => Err(AlarmError::Assembly(e)),
        }
    }
}

impl Alarm {
    /// The sender address.
    pub closed spec fn from_spec(&self) -> Seq<char> {
        self.from@
    }

    /// The recipient address.
    pub closed spec fn to_spec(&self) -> Seq<char> {
        self.to@
    }

    /// The relay the transport was built for.
    pub closed spec fn relay_spec(&self) -> RelaySettings {
        self.relay
    }

    /// A notifier sending from `from` to `to`, logged in as `smtp_username`
    /// on the relay at `domain`, port 587 with STARTTLS. It fails where the
    /// relay's transport cannot be prepared.
    pub fn new(
        from: String,
        to: String,
        smtp_username: String,
        smtp_password: String,
        domain: String,
    ) -> (r: Result<Alarm, AlarmError>)
        ensures
            r matches Ok(a) ==> {
                &&& a.from_spec() == from@
                &&& a.to_spec() == to@
                &&& a.relay_spec().domain@ == domain@
                &&& a.relay_spec().port == SUBMISSION_PORT
                &&& a.relay_spec().username@ == smtp_username@
                &&& a.relay_spec().password@ == smtp_password@
            },
            r matches Err(e) ==> e is Relay,
    {
        let settings = RelaySettings::submission(domain, smtp_username, smtp_password);
        let transport = starttls_transport(&settings);
        Alarm::from_transport(from, to, settings, transport)
    }

    /// A notifier over `transport`, built for `relay`; the transport's error
    /// where it has one.
    pub fn from_transport(
        from: String,
        to: String,
        relay: RelaySettings,
        transport: Result<SmtpTransport, Error>,
    ) -> (r: Result<Alarm, AlarmError>)
        ensures
            transport is Ok <==> r is Ok,
            r matches Ok(a) ==> a.from_spec() == from@ && a.to_spec() == to@ && a.relay_spec()
                == relay,
            transport matches Err(e) ==> r matches Err(AlarmError::Relay(e2)) && e2 == e,
    {
        match transport {
            Ok(mailer) => Ok(Alarm { from, to, relay, mailer }),
            Err(e) => Err(AlarmError::Relay(e)),
        }
    }

    /// The sender address.
    pub fn from(&self) -> (r: &String)
        ensures
            r@ == self.from_spec(),
    {
        &self.from
    }

    /// The recipient address.
    pub fn to(&self) -> (r: &String)
        ensures
            r@ == self.to_spec(),
    {
        &self.to
    }

    /// The relay the transport was built for.
    pub fn relay(&self) -> (r: &RelaySettings)
        ensures
            *r == self.relay_spec(),
    {
        &self.relay
    }

    /// The parts of the alert carrying `body`: from the sender, to the
    /// recipient, under the fixed subject.
    pub fn alert(&self, body: String) -> (r: Alert)
        ensures
            r.from@ == self.from_spec(),
            r.to@ == self.to_spec(),
            r.subject@ == subject_spec(),
            r.body@ == body@,
    {
        Alert {
            from: self.from.clone(),
            to: self.to.clone(),
            subject: "资源监控预警".to_owned(),
            body,
        }
    }

    /// The plain-text alert mail carrying `body` (see `alert`). It is built
    /// whenever both addresses are mailboxes, and otherwise fails, the sender
    /// being checked first.
    pub fn message(&self, body: String) -> (r: Result<Message, AlarmError>)
        ensures
            !parses_as_mailbox(self.from_spec()) <==> r matches Err(AlarmError::Sender(_)),
            parses_as_mailbox(self.from_spec()) && !parses_as_mailbox(self.to_spec()) <==> r matches Err(
                AlarmError::Recipient(_),
            ),
            parses_as_mailbox(self.from_spec()) && parses_as_mailbox(self.to_spec()) <==> r is Ok,
    {
        self.alert(body).compose()
    }

    /// The transport alerts are sent through.
    pub fn mailer(&self) -> &SmtpTransport {
        &self.mailer
    }

    /// What to log once a delivery has been tried: a confirmation where it
    /// went through; where it failed, the error (`failure` is its text) and
    /// then the whole undelivered `body`, so that nothing is lost.
    pub fn delivery_log(outcome: Result<(), String>, body: &str) -> (r: Vec<LogEntry>)
        ensures
            outcome is Ok ==> r@.len() == 1 && r@[0].level == LogLevel::Info && r@[0].text@
                == sent_text(),
            outcome matches Err(failure) ==> r@.len() == 2 && r@[0].level == LogLevel::Error
                && r@[0].text@ == failed_prefix() + failure@ && r@[1].level == LogLevel::Info
                && r@[1].text@ == unsent_prefix() + body@,
    {
        let mut log: Vec<LogEntry> = Vec::new();
        match outcome {
            Ok(()) => {
                log.push(LogEntry { level: LogLevel::Info, text: "Email sent successfully!".to_owned() });
            },
            Err(failure) => {
                let mut error_text = "Could not send email: ".to_owned();
                error_text.append(failure.as_str());
                log.push(LogEntry { level: LogLevel::Error, text: error_text });
                let mut unsent = "Unsend mail: ".to_owned();
                unsent.append(body);
                log.push(LogEntry { level: LogLevel::Info, text: unsent });
            },
        }
        log
    }
}

} // verus!
