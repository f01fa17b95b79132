//! The session supervisor and its message-dispatch policy: one long-lived
//! sync session is restarted after a fixed delay on any session-fatal
//! error, indefinitely, until the shutdown flag is observed; inbound
//! messages are filtered, matched against the admin commands, and otherwise
//! scanned for candidate links.

use vstd::prelude::*;
use vstd::string::*;
use crate::extract;
use crate::text;
use crate::weblink::UrlParts;

verus! {

/// Seconds between tearing a failed session down and starting the next.
pub const RESTART_DELAY_SECS: u64 = 10;

/// Connect timeout shared by all HTTP calls, in seconds.
pub const CONNECT_TIMEOUT_SECS: u64 = 10;

/// Read timeout shared by all HTTP calls, in seconds.
pub const READ_TIMEOUT_SECS: u64 = 120;

/// Total per-call timeout shared by all HTTP calls, in seconds.
pub const TOTAL_TIMEOUT_SECS: u64 = 140;

/// How one session ended.
#[derive(Clone, Copy, PartialEq, Eq, Structural, Debug)]
pub enum SessionEnd {
    /// Resume, initial sync or the sync loop failed: session-fatal.
    Fatal,
    /// The sync loop observed the shutdown flag and stopped.
    CleanShutdown,
}

/// What the supervisor does after a session ends.
#[derive(Clone, Copy, PartialEq, Eq, Structural, Debug)]
pub enum SupervisorDecision {
    /// Wait this many seconds, then establish a new session.
    RestartAfter { delay_secs: u64 },
    /// Terminate cleanly.
    Exit,
}

/// The supervisor's decision for a session's end: a fatal end is retried
/// after the fixed delay, a clean shutdown exits.
pub open spec fn supervise_spec(end: SessionEnd) -> SupervisorDecision {
    match end {
        SessionEnd::Fatal => SupervisorDecision::RestartAfter { delay_secs: RESTART_DELAY_SECS },
        SessionEnd::CleanShutdown => SupervisorDecision::Exit,
    }
}

/// Decides what follows one session's end.
pub fn supervise(end: SessionEnd) -> (r: SupervisorDecision)
    ensures
        r == supervise_spec(end),
{
    match end {
        SessionEnd::Fatal => SupervisorDecision::RestartAfter { delay_secs: RESTART_DELAY_SECS },
        SessionEnd::CleanShutdown => SupervisorDecision::Exit,
    }
}

/// The supervisor exits only on a clean shutdown: any number of fatal ends
/// each yield a restart after the fixed delay, never termination.
pub proof fn lemma_restarts_until_shutdown(end: SessionEnd)
    ensures
        supervise_spec(end) is Exit <==> end is CleanShutdown,
        end is Fatal ==> supervise_spec(end) == (SupervisorDecision::RestartAfter {
            delay_secs: RESTART_DELAY_SECS,
        }),
{
}

/// The sync loop's per-iteration decision.
#[derive(Clone, Copy, PartialEq, Eq, Structural, Debug)]
pub enum SyncControl {
    KeepSyncing,
    StopSyncing,
}

/// The sync loop stops exactly when the shutdown flag is raised.
pub fn sync_loop_control(shutdown_requested: bool) -> (r: SyncControl)
    ensures
        r is StopSyncing <==> shutdown_requested,
{
    if shutdown_requested {
        SyncControl::StopSyncing
    } else {
        SyncControl::KeepSyncing
    }
}

/// A raised shutdown flag ends the session cleanly: the next sync check
/// stops the loop, and the supervisor exits without treating the end as an
/// error.
pub proof fn lemma_shutdown_is_clean()
    ensures
        supervise_spec(SessionEnd::CleanShutdown) == SupervisorDecision::Exit,
{
}

/// The text with leading and trailing whitespace removed. Determined by
/// the standard library's notion of whitespace; opaque to the library.
pub uninterp spec fn trimmed(s: Seq<char>) -> Seq<char>;

/// Relies on `str::trim`: removes leading and trailing whitespace; the
/// result depends on the characters alone.
#[verifier::external_body]
fn trim_str(s: &str) -> (r: String)
    ensures
        r@ == trimmed(s@),
{
    s.trim().to_string()
}

/// What the dispatcher decides for one inbound room message.
pub enum Dispatch {
    /// The event is not processed: the room is not joined, the message is
    /// the account's own, or it is an edit of a prior message.
    Ignore,
    /// The status-check admin command: reply with the fixed acknowledgement.
    StatusReply,
    /// The shutdown admin command: raise the shutdown flag.
    Shutdown,
    /// Scan produced these candidate links to resolve and republish, in
    /// order; an empty sequence means nothing further happens.
    Republish(Vec<UrlParts>),
}

/// The mathematical value of a [`Dispatch`].
#[verifier::ext_equal]
pub ghost enum DispatchView {
    Ignore,
    StatusReply,
    Shutdown,
    Republish(Seq<crate::weblink::UrlView>),
}

impl View for Dispatch {
    type V = DispatchView;

    open spec fn view(&self) -> DispatchView {
        match self {
            Dispatch::Ignore => DispatchView::Ignore,
            Dispatch::StatusReply => DispatchView::StatusReply,
            Dispatch::Shutdown => DispatchView::Shutdown,
            Dispatch::Republish(links) => DispatchView::Republish(links.deep_view()),
        }
    }
}

/// The dispatch policy for one inbound room message: events from rooms not
/// joined, the account's own messages, edits and non-text bodies are
/// ignored; the trimmed body is matched case-sensitively against the admin
/// commands; anything else is scanned for candidate links. `body` is the
/// message's text, or nothing for a non-text message.
pub open spec fn dispatch_spec(
    room_joined: bool,
    from_self: bool,
    is_edit: bool,
    body: Option<Seq<char>>,
) -> DispatchView {
    if !room_joined || from_self || is_edit || body is None {
        DispatchView::Ignore
    } else if trimmed(body->Some_0) == "!status"@ {
        DispatchView::StatusReply
    } else if trimmed(body->Some_0) == "!die"@ {
        DispatchView::Shutdown
    } else {
        DispatchView::Republish(extract::extracted_links(body->Some_0))
    }
}

pub open spec fn view_opt_str(s: Option<&str>) -> Option<Seq<char>> {
    match s {
        Some(t) => Some(t@),
        None => None,
    }
}

/// Applies the dispatch policy to one inbound room message.
pub fn dispatch_message(room_joined: bool, from_self: bool, is_edit: bool, body: Option<&str>) -> (r:
    Dispatch)
    ensures
        r@ == dispatch_spec(room_joined, from_self, is_edit, view_opt_str(body)),
{
    if !room_joined || from_self || is_edit {
        return Dispatch::Ignore;
    }
    let text_body: &str = match body {
        None => { return Dispatch::Ignore },
        Some(t) => t,
    };
    let trimmed_body: String = trim_str(text_body);
    if text::str_eq(trimmed_body.as_str(), "!status") {
        return Dispatch::StatusReply;
    }
    if text::str_eq(trimmed_body.as_str(), "!die") {
        return Dispatch::Shutdown;
    }
    Dispatch::Republish(extract::extract_links(text_body))
}

/// The fixed acknowledgement the status-check command is answered with.
pub fn status_ack() -> (r: String)
    ensures
        r@ == "IKIRU"@,
{
    String::from_str("IKIRU")
}

} // verus!
