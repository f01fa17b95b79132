//! The per-link pipeline, the typing task, the autojoin retrier, the
//! session supervisor and the dispatch policy, driven on concrete events.

use fxbridge::autojoin::{autojoin_initial, join_step, JoinAction, JoinOutcome, JoinState};
use fxbridge::pipeline::{link_step, status_ok, LinkCall, LinkEvent, LinkStage};
use fxbridge::supervisor::{
    dispatch_message, status_ack, supervise, sync_loop_control, Dispatch, SessionEnd,
    SupervisorDecision, SyncControl,
};
use fxbridge::typing::{typing_step, TypingEvent, TypingState};

#[test]
fn status_code_policy() {
    assert!(!status_ok(199));
    assert!(status_ok(200));
    assert!(status_ok(299));
    assert!(!status_ok(300));
    assert!(!status_ok(500));
}

#[test]
fn text_sent_before_fetch_and_bad_status_fails_only_this_link() {
    // Resolve a post with media: the task demands the text send first.
    let (s, call) = link_step(
        LinkStage::AwaitResolve,
        LinkEvent::Resolved { has_media: true, needs_thumbnail: false },
    );
    assert_eq!(call, Some(LinkCall::SendText));
    // Only once the text is confirmed does it ask for the asset fetch.
    let (s, call) = link_step(s, LinkEvent::TextSent);
    assert_eq!(s, LinkStage::AwaitAssetFetch { needs_thumbnail: false });
    assert_eq!(call, Some(LinkCall::FetchAsset));
    // A 500 on the fetch fails the task; the text already stands and no
    // further call is demanded.
    let (s, call) = link_step(s, LinkEvent::AssetFetched { status: 500 });
    assert_eq!(s, LinkStage::Failed);
    assert_eq!(call, None);
    let (s, call) = link_step(s, LinkEvent::AttachmentSent);
    assert_eq!(s, LinkStage::Failed);
    assert_eq!(call, None);
}

#[test]
fn no_media_link_sends_one_text_and_no_attachment() {
    let (s, call) = link_step(
        LinkStage::AwaitResolve,
        LinkEvent::Resolved { has_media: false, needs_thumbnail: false },
    );
    assert_eq!(call, Some(LinkCall::SendText));
    let (s, call) = link_step(s, LinkEvent::TextSent);
    assert_eq!(s, LinkStage::Succeeded);
    assert_eq!(call, None);
}

#[test]
fn full_attachment_flow_with_thumbnail() {
    let (s, _) = link_step(
        LinkStage::AwaitResolve,
        LinkEvent::Resolved { has_media: true, needs_thumbnail: true },
    );
    let (s, _) = link_step(s, LinkEvent::TextSent);
    let (s, call) = link_step(s, LinkEvent::AssetFetched { status: 200 });
    assert_eq!(s, LinkStage::AwaitThumbnailFetch);
    assert_eq!(call, Some(LinkCall::FetchThumbnail));
    let (s, call) = link_step(s, LinkEvent::ThumbnailFetched { status: 200 });
    assert_eq!(s, LinkStage::AwaitAttachmentSend);
    assert_eq!(call, Some(LinkCall::SendAttachment));
    let (s, call) = link_step(s, LinkEvent::AttachmentSent);
    assert_eq!(s, LinkStage::Succeeded);
    assert_eq!(call, None);
}

#[test]
fn resolver_reports_no_post() {
    let (s, call) = link_step(LinkStage::AwaitResolve, LinkEvent::NoPost);
    assert_eq!(s, LinkStage::Failed);
    assert_eq!(call, None);
}

#[test]
fn transport_failure_fails_the_link() {
    let (s, call) = link_step(LinkStage::AwaitResolve, LinkEvent::CallFailed);
    assert_eq!(s, LinkStage::Failed);
    assert_eq!(call, None);
}

#[test]
fn autojoin_retries_then_joins() {
    let s0 = autojoin_initial();
    let (s1, a1) = join_step(s0, JoinOutcome::Failure);
    assert_eq!(a1, JoinAction::RetryAfter { wait_secs: 2 });
    let (s2, a2) = join_step(s1, JoinOutcome::Failure);
    assert_eq!(a2, JoinAction::RetryAfter { wait_secs: 4 });
    let (s3, a3) = join_step(s2, JoinOutcome::Failure);
    assert_eq!(a3, JoinAction::RetryAfter { wait_secs: 8 });
    let (s4, a4) = join_step(s3, JoinOutcome::Success);
    assert_eq!(s4, JoinState::Joined);
    assert_eq!(a4, JoinAction::Stop);
}

#[test]
fn autojoin_abandons_when_delay_exceeds_ceiling() {
    let mut s = autojoin_initial();
    let mut waits: Vec<u64> = Vec::new();
    loop {
        let (next, action) = join_step(s, JoinOutcome::Failure);
        s = next;
        match action {
            JoinAction::RetryAfter { wait_secs } => waits.push(wait_secs),
            JoinAction::Stop => break,
        }
        assert!(waits.len() < 100, "retrier must stop");
    }
    assert_eq!(s, JoinState::Abandoned);
    assert_eq!(waits, vec![2, 4, 8, 16, 32, 64, 128, 256, 512, 1024]);
    // Ten waited retries plus the first and the final attempt: the ceiling
    // caps the sequence at eleven failures.
    let (after, action) = join_step(s, JoinOutcome::Failure);
    assert_eq!(after, JoinState::Abandoned);
    assert_eq!(action, JoinAction::Stop);
}

#[test]
fn supervisor_restarts_on_fatal_end() {
    assert_eq!(
        supervise(SessionEnd::Fatal),
        SupervisorDecision::RestartAfter { delay_secs: 10 }
    );
    assert_eq!(supervise(SessionEnd::CleanShutdown), SupervisorDecision::Exit);
}

#[test]
fn sync_loop_stops_exactly_on_shutdown() {
    assert_eq!(sync_loop_control(false), SyncControl::KeepSyncing);
    assert_eq!(sync_loop_control(true), SyncControl::StopSyncing);
}

#[test]
fn dispatch_filters_and_admin_commands() {
    assert!(matches!(dispatch_message(false, false, false, Some("!die")), Dispatch::Ignore));
    assert!(matches!(dispatch_message(true, false, false, None), Dispatch::Ignore));
    assert!(matches!(dispatch_message(true, true, false, Some("!die")), Dispatch::Ignore));
    assert!(matches!(dispatch_message(true, false, true, Some("!die")), Dispatch::Ignore));
    assert!(matches!(dispatch_message(true, false, false, Some("!status")), Dispatch::StatusReply));
    assert!(matches!(dispatch_message(true, false, false, Some("  !status  ")), Dispatch::StatusReply));
    assert!(matches!(dispatch_message(true, false, false, Some("!die")), Dispatch::Shutdown));
    assert!(matches!(dispatch_message(true, false, false, Some(" !die\n")), Dispatch::Shutdown));
    match dispatch_message(true, false, false, Some("!dies")) {
        Dispatch::Republish(links) => assert!(links.is_empty()),
        _ => panic!("a non-command body is scanned for links"),
    }
    match dispatch_message(true, false, false, Some("see https://x.com/u/status/7")) {
        Dispatch::Republish(links) => assert_eq!(links.len(), 1),
        _ => panic!("links are republished"),
    }
}

#[test]
fn status_command_acknowledgement() {
    assert_eq!(status_ack(), "IKIRU");
}

#[test]
fn typing_runs_until_grace_elapses() {
    let (s, assert_now) = typing_step(TypingState::Active, TypingEvent::Tick);
    assert_eq!(s, TypingState::Active);
    assert!(assert_now);
    let (s, assert_now) = typing_step(s, TypingEvent::BatchFinished);
    assert_eq!(s, TypingState::Draining);
    assert!(!assert_now);
    // During the grace period the indicator is still pulsed.
    let (s, assert_now) = typing_step(s, TypingEvent::Tick);
    assert_eq!(s, TypingState::Draining);
    assert!(assert_now);
    let (s, assert_now) = typing_step(s, TypingEvent::GraceElapsed);
    assert_eq!(s, TypingState::Stopped);
    assert!(!assert_now);
    // A stray tick after the stop asserts nothing.
    let (s, assert_now) = typing_step(s, TypingEvent::Tick);
    assert_eq!(s, TypingState::Stopped);
    assert!(!assert_now);
}

#[test]
fn typing_never_stops_before_batch_finishes() {
    let mut s = TypingState::Active;
    for _ in 0..5 {
        let (next, _) = typing_step(s, TypingEvent::Tick);
        s = next;
        let (next, _) = typing_step(s, TypingEvent::GraceElapsed);
        s = next;
        assert_ne!(s, TypingState::Stopped);
    }
}
