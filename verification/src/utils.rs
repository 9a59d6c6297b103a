//! Presentation-facing helpers: truncating long failure text, choosing how a
//! failure is surfaced, the blocking-work bridge's outcome, confirmation
//! dialogs, and status rows.

pub mod notification;

use crate::error::UserCanceled;
use vstd::prelude::*;
use vstd::string::{StrSliceExecFns, StringExecFns};

verus! {

/// Text longer than this many characters is truncated before it is shown.
pub const ELLIPSIZE_THRESHOLD: usize = 410;

/// How many characters of the head and of the tail survive truncation.
pub const ELLIPSIZE_KEEP: usize = 200;

/// Overly long text is shown as a head/tail preview around an ellipsis
/// marker; short text is shown in full.
pub open spec fn ellipsize_spec(s: Seq<char>) -> Seq<char> {
    if s.len() > 410 {
        s.subrange(0, 200) + "\n\u{2026}\n"@ + s.subrange(s.len() - 200, s.len() as int)
    } else {
        s
    }
}

/// Truncates text for presentation: everything beyond the threshold is
/// replaced by a head/tail preview plus an ellipsis marker.
pub fn ellipsize(s: &str) -> (r: String)
    ensures
        r@ == ellipsize_spec(s@),
{
    let n = s.unicode_len();
    if n > ELLIPSIZE_THRESHOLD {
        let mut out = s.substring_char(0, ELLIPSIZE_KEEP).to_owned();
        out.append("\n\u{2026}\n");
        out.append(s.substring_char(n - ELLIPSIZE_KEEP, n));
        out
    } else {
        s.to_owned()
    }
}

/// How one failure is surfaced: a modal dialog when the interactive surface
/// is visible, a passive system notification otherwise. Both carry the
/// truncated primary text; the secondary text is omitted when empty. The
/// correlation identifier lets a notification replace an earlier one.
#[derive(Debug)]
pub enum Presentation {
    Dialog { primary: String, secondary: Option<String> },
    Notification { primary: String, body: Option<String>, notification_id: Option<String> },
}

/// What the shown secondary text is: the truncated detail, or nothing when
/// the detail truncates to nothing.
pub open spec fn shown_secondary(detail: Seq<char>) -> Option<Seq<char>> {
    if ellipsize_spec(detail).len() == 0 {
        None
    } else {
        Some(ellipsize_spec(detail))
    }
}

/// Decides how a failure is presented. This is the computation behind
/// showing an error anchored to a window: the effectful layer only renders
/// the returned value.
pub fn error_presentation(
    message: &str,
    detail: &str,
    notification_id: Option<&str>,
    window_displayed: bool,
) -> (p: Presentation)
    ensures
        window_displayed ==> (p matches Presentation::Dialog { primary, secondary } && primary@
            == ellipsize_spec(message@) && match (secondary, shown_secondary(detail@)) {
            (Some(s), Some(t)) => s@ == t,
            (None, None) => true,
            _ => false,
        }),
        !window_displayed ==> (p matches Presentation::Notification {
            primary,
            body,
            notification_id: nid,
        } && primary@ == ellipsize_spec(message@) && match (body, shown_secondary(detail@)) {
            (Some(s), Some(t)) => s@ == t,
            (None, None) => true,
            _ => false,
        } && match (nid, notification_id) {
            (Some(a), Some(b)) => a@ == b@,
            (None, None) => true,
            _ => false,
        }),
{
    let primary = ellipsize(message);
    let secondary_text = ellipsize(detail);
    let secondary = if secondary_text.as_str().is_empty() {
        None
    } else {
        Some(secondary_text)
    };
    if window_displayed {
        Presentation::Dialog { primary, secondary }
    } else {
        let nid = match notification_id {
            Some(id) => Some(id.to_owned()),
            None => None,
        };
        Presentation::Notification { primary, body: secondary, notification_id: nid }
    }
}

/// The failure of the blocking-work bridge: the worker thread terminated —
/// panicked, or dropped its sending side — without delivering a value.
#[derive(Clone, Copy, Debug, PartialEq, Eq, Structural)]
pub enum AsyncErr {
    ThreadPanicked,
}

impl AsyncErr {
    /// The human-readable rendering of the failure.
    pub fn message_text(&self) -> (r: String)
        ensures
            r@ == "The operation terminated unexpectedly."@,
    {
        "The operation terminated unexpectedly.".to_owned()
    }
}

/// The single outcome of one blocking call, from what the worker delivered:
/// the worker's own result if a value arrived, the distinct
/// did-not-complete failure if the channel closed without one.
pub open spec fn bridge_outcome_of<R>(received: Option<R>) -> Result<R, AsyncErr> {
    match received {
        Some(v) => Ok(v),
        None => Err(AsyncErr::ThreadPanicked),
    }
}

/// One blocking call's delivery state: its future resolves exactly once.
#[derive(Debug)]
pub struct BridgeCall {
    delivered: bool,
}

impl BridgeCall {
    /// Whether the caller has already received the call's one outcome.
    pub closed spec fn is_delivered(&self) -> bool {
        self.delivered
    }

    /// A call whose worker was just spawned: nothing delivered yet.
    pub fn new() -> (r: BridgeCall)
        ensures
            !r.is_delivered(),
    {
        BridgeCall { delivered: false }
    }

    /// Resolves the call from what came over the result channel. A call
    /// resolves at most once: delivery consumes the pending state.
    pub fn deliver<R>(&mut self, received: Option<R>) -> (r: Result<R, AsyncErr>)
        requires
            !old(self).is_delivered(),
        ensures
            final(self).is_delivered(),
            r == bridge_outcome_of(received),
    {
        self.delivered = true;
        match received {
            Some(v) => Ok(v),
            None => Err(AsyncErr::ThreadPanicked),
        }
    }
}

/// The outcome was the worker's success.
pub open spec fn bridge_success<T, E>(outcome: Result<Result<T, E>, AsyncErr>) -> bool {
    outcome matches Ok(inner) && inner is Ok
}

/// The outcome was the worker's own domain failure.
pub open spec fn bridge_domain_failure<T, E>(outcome: Result<Result<T, E>, AsyncErr>) -> bool {
    outcome matches Ok(inner) && inner is Err
}

/// The outcome was the did-not-complete failure.
pub open spec fn bridge_incomplete<T, E>(outcome: Result<Result<T, E>, AsyncErr>) -> bool {
    outcome is Err
}

/// Bridge completeness: whatever the worker did, its caller receives exactly
/// one outcome — success, domain failure, or did-not-complete — never none
/// of them, never two.
pub proof fn lemma_bridge_exactly_one_outcome<T, E>(received: Option<Result<T, E>>)
    ensures
        bridge_success(bridge_outcome_of(received)) || bridge_domain_failure(
            bridge_outcome_of(received),
        ) || bridge_incomplete(bridge_outcome_of(received)),
        !(bridge_success(bridge_outcome_of(received)) && bridge_domain_failure(
            bridge_outcome_of(received),
        )),
        !(bridge_success(bridge_outcome_of(received)) && bridge_incomplete(
            bridge_outcome_of(received),
        )),
        !(bridge_domain_failure(bridge_outcome_of(received)) && bridge_incomplete(
            bridge_outcome_of(received),
        )),
{
}

/// A modal question put to the user; answering anything but acceptance is a
/// cancellation, not a failure.
#[derive(Debug)]
pub struct ConfirmationDialog {
    pub title: String,
    pub message: String,
    pub cancel: String,
    pub accept: String,
    pub destructive: bool,
}

impl ConfirmationDialog {
    pub fn new(title: &str, message: &str, cancel: &str, accept: &str) -> (r: ConfirmationDialog)
        ensures
            r.title@ == title@,
            r.message@ == message@,
            r.cancel@ == cancel@,
            r.accept@ == accept@,
            !r.destructive,
    {
        ConfirmationDialog {
            title: title.to_owned(),
            message: message.to_owned(),
            cancel: cancel.to_owned(),
            accept: accept.to_owned(),
            destructive: false,
        }
    }

    /// Marks the accepting answer as destructive, so it is rendered as such.
    pub fn set_destructive(&mut self, destructive: bool)
        ensures
            final(self).destructive == destructive,
            final(self).title@ == old(self).title@,
            final(self).message@ == old(self).message@,
            final(self).cancel@ == old(self).cancel@,
            final(self).accept@ == old(self).accept@,
    {
        self.destructive = destructive;
    }

    /// The outcome of asking, once the user answered: acceptance succeeds,
    /// every other answer is the user's cancellation.
    pub fn ask_outcome(&self, accepted: bool) -> (r: Result<(), UserCanceled>)
        ensures
            accepted <==> r is Ok,
    {
        if accepted {
            Ok(())
        } else {
            Err(UserCanceled::new())
        }
    }
}

/// How a status row is levelled.
#[derive(Clone, Copy, Debug, PartialEq, Eq, Structural)]
pub enum StatusLevel {
    Success,
    Neutral,
    Warning,
    Error,
}

/// One levelled status line of the interface: plain data, rendered by the
/// presentation layer.
#[derive(Debug)]
pub struct StatusRow {
    pub title: String,
    pub subtitle: String,
    pub icon_name: String,
    pub level: StatusLevel,
}

/// The pattern occurs in the text starting at position `i`.
pub open spec fn contains_at(text: Seq<char>, pattern: Seq<char>, i: int) -> bool {
    0 <= i && i + pattern.len() <= text.len() && text.subrange(i, i + pattern.len()) == pattern
}

/// The pattern occurs somewhere in the text.
pub open spec fn contains_pattern(text: Seq<char>, pattern: Seq<char>) -> bool {
    exists|i: int| contains_at(text, pattern, i)
}

/// Whether the pattern occurs at exactly position `i` of the text.
fn match_at(text: &str, pattern: &str, i: usize) -> (r: bool)
    requires
        i + pattern@.len() <= text@.len(),
    ensures
        r == contains_at(text@, pattern@, i as int),
{
    let n = text.unicode_len();
    let m = pattern.unicode_len();
    let mut k: usize = 0;
    while k < m
        invariant
            k <= m,
            n == text@.len(),
            m == pattern@.len(),
            i + m <= n,
            forall|t: int| 0 <= t < k ==> text@[i + t] == pattern@[t],
        decreases m - k,
    {
        if text.get_char(i + k) != pattern.get_char(k) {
            proof {
                assert(text@.subrange(i as int, i + m)[k as int] != pattern@[k as int]);
            }
            return false;
        }
        k = k + 1;
    }
    proof {
        assert(text@.subrange(i as int, i + m) =~= pattern@);
    }
    true
}

/// Whether the pattern occurs anywhere in the text.
pub fn str_contains(text: &str, pattern: &str) -> (r: bool)
    ensures
        r == contains_pattern(text@, pattern@),
{
    let n = text.unicode_len();
    let m = pattern.unicode_len();
    if m > n {
        proof {
            assert(forall|i: int| !contains_at(text@, pattern@, i));
        }
        return false;
    }
    let mut i: usize = 0;
    loop
        invariant
            i <= n - m,
            m <= n,
            n == text@.len(),
            m == pattern@.len(),
            forall|j: int| 0 <= j < i ==> !contains_at(text@, pattern@, j),
        decreases n - m - i,
    {
        if match_at(text, pattern, i) {
            return true;
        }
        if i == n - m {
            proof {
                assert(forall|j: int| j > n - m ==> !contains_at(text@, pattern@, j));
            }
            return false;
        }
        i = i + 1;
    }
}

/// Whether a directory is most likely a backup repository, from what a look
/// at the file system found: its `data` entry must be a directory, and its
/// `config` file must be small and contain the repository section marker.
pub fn is_backup_repo(data_is_dir: bool, config_len: u64, config_content: &str) -> (r: bool)
    ensures
        r == (data_is_dir && config_len < 1048576 && contains_pattern(
            config_content@,
            "[repository]"@,
        )),
{
    data_is_dir && config_len < 1048576 && str_contains(config_content, "[repository]")
}

} // verus!
