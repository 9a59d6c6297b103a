//! The error algebra and the task runner's routing policy.
//!
//! Two independently evolving error domains — the interactive layer's
//! [`Error`] and the backup engine's [`crate::borg::Error`] — are merged in
//! [`Combined`] and classified under one reporting policy: every failure is
//! either presented to the user as a [`Message`] or suppressed as
//! [`Error::UserCanceled`]. The conversion rules are named functions, not
//! implicit coercions, so each rule can be stated and tested on its own.

use crate::borg;
use crate::config::{BackupExists, BackupNotFound};
use vstd::prelude::*;
use vstd::string::StringExecFns;

verus! {

/// The mathematical content of a [`Message`].
pub struct MessageView {
    pub text: Seq<char>,
    pub secondary_text: Option<Seq<char>>,
    pub notification_id: Option<Seq<char>>,
}

/// A user-facing failure payload: primary text, optional secondary detail
/// text, and an optional notification-correlation identifier that lets a
/// later event replace a previously shown notification.
#[derive(Clone, Debug)]
pub struct Message {
    text: String,
    secondary_text: Option<String>,
    notification_id: Option<String>,
}

impl View for Message {
    type V = MessageView;

    closed spec fn view(&self) -> MessageView {
        MessageView {
            text: self.text@,
            secondary_text: match self.secondary_text {
                Some(s) => Some(s@),
                None => None,
            },
            notification_id: match self.notification_id {
                Some(s) => Some(s@),
                None => None,
            },
        }
    }
}

/// What a message reads as when rendered as one block of text: the primary
/// text, and the secondary text on a second line if there is one.
pub open spec fn message_display_text(m: MessageView) -> Seq<char> {
    match m.secondary_text {
        Some(s) => m.text + "\n"@ + s,
        None => m.text,
    }
}

impl Message {
    pub fn new(text: String, secondary_text: String) -> (r: Message)
        ensures
            r@.text == text@,
            r@.secondary_text == Some(secondary_text@),
            r@.notification_id is None,
    {
        Message { text, secondary_text: Some(secondary_text), notification_id: None }
    }

    pub fn with_notification_id(
        text: String,
        secondary_text: String,
        notification_id: String,
    ) -> (r: Message)
        ensures
            r@.text == text@,
            r@.secondary_text == Some(secondary_text@),
            r@.notification_id == Some(notification_id@),
    {
        Message {
            text,
            secondary_text: Some(secondary_text),
            notification_id: Some(notification_id),
        }
    }

    pub fn short(text: String) -> (r: Message)
        ensures
            r@.text == text@,
            r@.secondary_text is None,
            r@.notification_id is None,
    {
        Message { text, secondary_text: None, notification_id: None }
    }

    /// Classifies a secret-service failure: when the portal request was
    /// cancelled because no keyring daemon is available, the detail text
    /// explains the missing daemon instead of echoing the raw failure.
    pub fn from_secret_service(text: String, err: SecretServiceError) -> (r: Message)
        ensures
            r@.text == text@,
            r@.secondary_text == Some(secret_service_detail_text(err)),
            r@.notification_id is None,
    {
        match err {
            SecretServiceError::CancelledPortalRequest => Message::new(
                text,
                "The keyring is not available. Pika Backup requires a keyring daemon (\u{201c}secret service\u{201d}) to store passwords. For installation instructions see the operating system documentation.".to_owned(),
            ),
            SecretServiceError::Other(detail) => Message::new(text, detail),
        }
    }

    pub fn text(&self) -> (r: &str)
        ensures
            r@ == self@.text,
    {
        self.text.as_str()
    }

    pub fn secondary_text(&self) -> (r: Option<&str>)
        ensures
            r matches Some(s) ==> self@.secondary_text == Some(s@),
            r is None ==> self@.secondary_text is None,
    {
        match &self.secondary_text {
            Some(s) => Some(s.as_str()),
            None => None,
        }
    }

    pub fn notification_id(&self) -> (r: Option<&str>)
        ensures
            r matches Some(s) ==> self@.notification_id == Some(s@),
            r is None ==> self@.notification_id is None,
    {
        match &self.notification_id {
            Some(s) => Some(s.as_str()),
            None => None,
        }
    }

    /// The message rendered as one block of text.
    pub fn to_text(&self) -> (r: String)
        ensures
            r@ == message_display_text(self@),
    {
        match &self.secondary_text {
            Some(secondary) => {
                let mut out = self.text.clone();
                out.append("\n");
                out.append(secondary.as_str());
                out
            },
            None => self.text.clone(),
        }
    }
}

fn option_string_eq(a: &Option<String>, b: &Option<String>) -> (r: bool)
    ensures
        r == match (*a, *b) {
            (Some(x), Some(y)) => x@ == y@,
            (None, None) => true,
            _ => false,
        },
{
    match (a, b) {
        (Some(x), Some(y)) => *x == *y,
        (None, None) => true,
        _ => false,
    }
}

impl PartialEq for Message {
    fn eq(&self, other: &Self) -> bool {
        self.text == other.text && option_string_eq(&self.secondary_text, &other.secondary_text)
            && option_string_eq(&self.notification_id, &other.notification_id)
    }
}

impl vstd::std_specs::cmp::PartialEqSpecImpl for Message {
    open spec fn obeys_eq_spec() -> bool {
        true
    }

    open spec fn eq_spec(&self, other: &Self) -> bool {
        self@.text == other@.text && self@.secondary_text == other@.secondary_text
            && self@.notification_id == other@.notification_id
    }
}

/// What the keyring of the host offers when storing a password fails: the
/// portal request was cancelled because no keyring daemon answers, or some
/// other failure with its human-readable rendering.
#[derive(Clone, Debug)]
pub enum SecretServiceError {
    CancelledPortalRequest,
    Other(String),
}

/// The detail text that [`Message::from_secret_service`] gives a
/// secret-service failure.
pub open spec fn secret_service_detail_text(err: SecretServiceError) -> Seq<char> {
    match err {
        SecretServiceError::CancelledPortalRequest => "The keyring is not available. Pika Backup requires a keyring daemon (\u{201c}secret service\u{201d}) to store passwords. For installation instructions see the operating system documentation."@,
        SecretServiceError::Other(detail) => detail@,
    }
}

/// The user declined or dismissed an interaction: a normal outcome value,
/// not a failure to report.
#[derive(Clone, Copy, Debug, PartialEq, Eq, Structural)]
pub struct UserCanceled {}

impl UserCanceled {
    pub fn new() -> (r: UserCanceled)
        ensures
            r == (UserCanceled {  }),
    {
        UserCanceled {  }
    }
}

/// An interactive-layer failure: a user-visible message, or an explicit,
/// silent cancellation that is never shown.
#[derive(Clone, Debug)]
pub enum Error {
    Message(Message),
    UserCanceled,
}

/// The fixed text of [`Error::from_backup_exists`].
pub open spec fn backup_exists_text(id: Seq<char>) -> Seq<char> {
    "Backup with id \u{201c}"@ + id + "\u{201d} already exists."@
}

/// The fixed text of [`Error::from_backup_not_found`].
pub open spec fn backup_not_found_text(id: Seq<char>) -> Seq<char> {
    "Could not find backup configuration with id \u{201c}"@ + id + "\u{201d}."@
}

impl Error {
    /// Lifts a message; the `Message` side of the domain conversion table.
    pub fn from_message(msg: Message) -> (r: Error)
        ensures
            r == Error::Message(msg),
    {
        Error::Message(msg)
    }

    /// Converts "entity already exists" to its fixed, parameterized message.
    pub fn from_backup_exists(err: BackupExists) -> (r: Error)
        ensures
            r matches Error::Message(m) && m@.text == backup_exists_text(err.id.0@)
                && m@.secondary_text is None && m@.notification_id is None,
    {
        let mut text = "Backup with id \u{201c}".to_owned();
        text.append(err.id.0.as_str());
        text.append("\u{201d} already exists.");
        Error::Message(Message::short(text))
    }

    /// Converts "entity not found" to its fixed, parameterized message.
    pub fn from_backup_not_found(err: BackupNotFound) -> (r: Error)
        ensures
            r matches Error::Message(m) && m@.text == backup_not_found_text(err.id.0@)
                && m@.secondary_text is None && m@.notification_id is None,
    {
        let mut text = "Could not find backup configuration with id \u{201c}".to_owned();
        text.append(err.id.0.as_str());
        text.append("\u{201d}.");
        Error::Message(Message::short(text))
    }
}

impl PartialEq for Error {
    fn eq(&self, other: &Self) -> bool {
        match (self, other) {
            (Error::Message(m), Error::Message(n)) => m == n,
            (Error::UserCanceled, Error::UserCanceled) => true,
            _ => false,
        }
    }
}

impl vstd::std_specs::cmp::PartialEqSpecImpl for Error {
    open spec fn obeys_eq_spec() -> bool {
        true
    }

    open spec fn eq_spec(&self, other: &Self) -> bool {
        match (self, other) {
            (Error::Message(m), Error::Message(n)) => m@.text == n@.text && m@.secondary_text
                == n@.secondary_text && m@.notification_id == n@.notification_id,
            (Error::UserCanceled, Error::UserCanceled) => true,
            _ => false,
        }
    }
}

/// The tagged union of the two error domains.
#[derive(Clone, Debug)]
pub enum Combined {
    Ui(Error),
    Borg(borg::Error),
}

impl Combined {
    /// Lifts an interactive-layer failure unchanged.
    pub fn from_ui(err: Error) -> (r: Combined)
        ensures
            r == Combined::Ui(err),
    {
        Combined::Ui(err)
    }

    /// Lifts an engine failure unchanged.
    pub fn from_borg(err: borg::Error) -> (r: Combined)
        ensures
            r == Combined::Borg(err),
    {
        Combined::Borg(err)
    }
}

/// A result whose failure may come from either domain.
pub type CombinedResult<T> = Result<T, Combined>;

/// Whether a combined failure is an engine abort initiated by the user —
/// the one condition that is reported silently.
pub open spec fn is_user_abort(c: Combined) -> bool {
    c matches Combined::Borg(borg::Error::Aborted(borg::Abort::User))
}

/// Whether a combined result failed with a user-initiated engine abort.
pub open spec fn is_user_abort_result<T>(r: Result<T, Combined>) -> bool {
    r matches Err(c) && is_user_abort(c)
}

pub trait CombinedResultExt<T> {
    fn is_borg_err_user_aborted(&self) -> bool;
}

impl<T> CombinedResultExt<T> for Result<T, Combined> {
    fn is_borg_err_user_aborted(&self) -> (r: bool)
        ensures
            r == is_user_abort_result(*self),
    {
        matches!(self, Err(Combined::Borg(borg::Error::Aborted(borg::Abort::User))))
    }
}

pub trait ErrorToMessage<R> {
    fn err_to_msg(self, text: String) -> Result<R, Error>;
}

/// How [`ErrorToMessage::err_to_msg`] wraps an arbitrary rendered failure:
/// the caller-supplied context becomes the primary text and the rendering
/// the secondary text.
pub open spec fn err_to_msg_rel<R>(
    input: Result<R, Seq<char>>,
    text: Seq<char>,
    output: Result<R, Error>,
) -> bool {
    match input {
        Ok(v) => output matches Ok(w) && w == v,
        Err(detail) => output matches Err(e) && e matches Error::Message(m) && m@.text == text
            && m@.secondary_text == Some(detail) && m@.notification_id is None,
    }
}

impl<R> ErrorToMessage<R> for Result<R, String> {
    fn err_to_msg(self, text: String) -> (res: Result<R, Error>)
        ensures
            err_to_msg_rel(
                match self {
                    Ok(v) => Ok(v),
                    Err(e) => Err(e@),
                },
                text@,
                res,
            ),
    {
        match self {
            Ok(v) => Ok(v),
            Err(detail) => Err(Error::Message(Message::new(text, detail))),
        }
    }
}

/// The conversion table of [`CombinedToError::into_message`]: interactive
/// failures lift unchanged, a user-initiated engine abort maps to silent
/// cancellation, and every other engine failure becomes a message whose
/// primary text is the caller-supplied context.
pub open spec fn into_message_rel<R>(
    input: Result<R, Combined>,
    text: Seq<char>,
    output: Result<R, Error>,
) -> bool {
    match input {
        Ok(v) => output matches Ok(w) && w == v,
        Err(Combined::Ui(e)) => output matches Err(e2) && e2 == e,
        Err(Combined::Borg(be)) => if be.is_user_aborted() {
            output matches Err(e2) && e2 is UserCanceled
        } else {
            output matches Err(e2) && e2 matches Error::Message(m) && m@.text == text
                && m@.secondary_text == Some(borg::error_text(be)) && m@.notification_id is None
        },
    }
}

/// The split of [`CombinedToError::into_borg_error`]: engine failures move
/// into the inner result, interactive failures stay outer.
pub open spec fn into_borg_error_rel<R>(
    input: Result<R, Combined>,
    output: Result<Result<R, borg::Error>, Error>,
) -> bool {
    match input {
        Ok(v) => output matches Ok(inner) && inner matches Ok(w) && w == v,
        Err(Combined::Borg(be)) => output matches Ok(inner) && inner matches Err(e) && e == be,
        Err(Combined::Ui(e)) => output matches Err(e2) && e2 == e,
    }
}

pub trait CombinedToError<R> {
    fn into_message(self, text: String) -> Result<R, Error>;

    fn into_borg_error(self) -> Result<Result<R, borg::Error>, Error>;
}

impl<R> CombinedToError<R> for Result<R, Combined> {
    fn into_message(self, text: String) -> (res: Result<R, Error>)
        ensures
            into_message_rel(self, text@, res),
    {
        match self {
            Ok(v) => Ok(v),
            Err(Combined::Ui(e)) => Err(e),
            Err(Combined::Borg(be)) => match be {
                borg::Error::Aborted(borg::Abort::User) => Err(Error::UserCanceled),
                _ => {
                    let detail = be.message_text();
                    Err(Error::Message(Message::new(text, detail)))
                },
            },
        }
    }

    fn into_borg_error(self) -> (res: Result<Result<R, borg::Error>, Error>)
        ensures
            into_borg_error_rel(self, res),
    {
        match self {
            Ok(v) => Ok(Ok(v)),
            Err(Combined::Borg(be)) => Ok(Err(be)),
            Err(Combined::Ui(e)) => Err(e),
        }
    }
}

/// What the task runner does with a finished unit of work: nothing, or
/// present one message anchored to a presentation context if one was
/// supplied at spawn time.
#[derive(Debug)]
pub enum Disposition<W> {
    Silent,
    Show { message: Message, transient_for: Option<W> },
}

/// The routing policy of the task runner: success and silent cancellation
/// produce no observable action; a message failure is presented, anchored to
/// the handler's presentation context.
pub open spec fn disposition_of<W>(
    transient_for: Option<W>,
    result: Result<(), Error>,
) -> Disposition<W> {
    match result {
        Ok(_) => Disposition::Silent,
        Err(Error::UserCanceled) => Disposition::Silent,
        Err(Error::Message(m)) => Disposition::Show { message: m, transient_for },
    }
}

/// The task runner: the single funnel through which every failure becomes an
/// observable effect. Work is spawned through it, and its routing decides
/// whether the outcome is shown or suppressed.
#[derive(Debug)]
pub struct Handler<W> {
    pub transient_for: Option<W>,
}

impl<W> Handler<W> {
    pub fn new() -> (r: Self)
        ensures
            r.transient_for is None,
    {
        Handler { transient_for: None }
    }

    /// Anchors failure presentation to the given context.
    pub fn error_transient_for(self, window: W) -> (r: Self)
        ensures
            r.transient_for == Some(window),
    {
        Handler { transient_for: Some(window) }
    }

    /// Routes an already-computed result: the synchronous variant of the
    /// runner, and the only place failures become visible.
    pub fn handle_sync(self, result: Result<(), Error>) -> (d: Disposition<W>)
        ensures
            d == disposition_of(self.transient_for, result),
    {
        match result {
            Ok(_) => Disposition::Silent,
            Err(Error::UserCanceled) => Disposition::Silent,
            Err(Error::Message(m)) => Disposition::Show {
                message: m,
                transient_for: self.transient_for,
            },
        }
    }
}

impl<W> Default for Handler<W> {
    fn default() -> (r: Self)
        ensures
            r.transient_for is None,
    {
        Handler { transient_for: None }
    }
}

/// Silent-cancellation law: an engine failure classified as a user-initiated
/// abort always converts to `UserCanceled`, and routing that outcome
/// performs no visible action, whatever presentation context was supplied.
/// Conversion and routing are pure, so this holds under any number of
/// repetitions.
pub proof fn lemma_user_abort_is_silent<W>(
    input: Result<(), Combined>,
    text: Seq<char>,
    converted: Result<(), Error>,
    transient_for: Option<W>,
)
    requires
        is_user_abort_result(input),
        into_message_rel(input, text, converted),
    ensures
        converted matches Err(e) && e is UserCanceled,
        disposition_of(transient_for, converted) is Silent,
{
}

/// No component ever shows a silent outcome: the router acts only on a
/// message failure.
pub proof fn lemma_only_messages_are_shown<W>(
    transient_for: Option<W>,
    result: Result<(), Error>,
)
    requires
        !(result matches Err(Error::Message(_))),
    ensures
        disposition_of(transient_for, result) is Silent,
{
}

} // verus!
