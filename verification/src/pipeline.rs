//! The per-link republish pipeline, as a state machine over plain events:
//! resolve the link through the embed API, send the text summary, then —
//! only when media was selected — fetch the asset (and thumbnail), and send
//! the attachment. Every failure ends this link's task alone; the driver
//! performs the I/O and feeds the outcomes back as events.

use vstd::prelude::*;
use vstd::string::*;
use crate::civil;
use crate::media;
use crate::media::{UploadJob, view_opt_job};
use crate::post::Post;
use crate::summary;
use crate::weblink::{UrlParts, UrlView};

verus! {

/// The host of the embed-resolution API.
pub open spec fn api_host() -> Seq<char> {
    "api.fxtwitter.com"@
}

/// A candidate link with its host rewritten to the embed API's host.
pub open spec fn api_url_spec(u: UrlView) -> UrlView {
    UrlView {
        scheme: u.scheme,
        host: api_host(),
        path: u.path,
        query: u.query,
        fragment: u.fragment,
    }
}

/// Rewrites a candidate link's host to the embed API's host, keeping
/// scheme, path, query and fragment.
pub fn api_url(link: &UrlParts) -> (r: UrlParts)
    ensures
        r@ == api_url_spec(link@),
{
    let r = UrlParts {
        scheme: link.scheme.clone(),
        host: String::from_str("api.fxtwitter.com"),
        path: link.path.clone(),
        query: clone_opt_string(&link.query),
        fragment: clone_opt_string(&link.fragment),
    };
    proof {
        assert(r@ =~= api_url_spec(link@));
    }
    r
}

/// Clones an optional string, keeping its value.
fn clone_opt_string(s: &Option<String>) -> (r: Option<String>)
    ensures
        crate::weblink::view_opt_string(r) == crate::weblink::view_opt_string(*s),
{
    match s {
        Some(t) => Some(t.clone()),
        None => None,
    }
}

/// Whether an HTTP status is a success; anything else fails the fetch.
pub open spec fn status_ok_spec(status: u16) -> bool {
    200 <= status < 300
}

/// Success test for an HTTP status code.
pub fn status_ok(status: u16) -> (r: bool)
    ensures
        r == status_ok_spec(status),
{
    200 <= status && status < 300
}

/// Everything the driver needs to republish one resolved post: the text
/// summary, and the upload job for the selected media item, if any.
pub struct RepublishPlan {
    pub summary: String,
    pub job: Option<UploadJob>,
}

/// Builds the republish plan of a resolved post: the text summary, and at
/// most one upload job chosen by the media-selection policy.
pub fn republish_plan(p: &Post) -> (r: RepublishPlan)
    requires
        civil::renderable_timestamp(p.created_timestamp),
    ensures
        r.summary@ == summary::summary_str(p@),
        view_opt_job(r.job) == media::select_media_spec(p@.media, p@.id),
{
    RepublishPlan {
        summary: summary::build_summary(p),
        job: media::select_media(&p.media, p.id.as_str()),
    }
}

/// The stage one link's task is in. The two boolean fields say whether the
/// plan selected media, and whether that media carries a thumbnail.
#[derive(Clone, Copy, PartialEq, Eq, Structural, Debug)]
pub enum LinkStage {
    /// The embed API call is outstanding.
    AwaitResolve,
    /// The text summary send is outstanding.
    AwaitTextSend { has_media: bool, needs_thumbnail: bool },
    /// The media asset fetch is outstanding; the text already stands.
    AwaitAssetFetch { needs_thumbnail: bool },
    /// The thumbnail fetch is outstanding.
    AwaitThumbnailFetch,
    /// The attachment send is outstanding.
    AwaitAttachmentSend,
    /// The link was republished in full.
    Succeeded,
    /// The task ended early; the driver logs and moves to the next link.
    Failed,
}

/// An I/O outcome the driver reports to the task.
#[derive(Clone, Copy, PartialEq, Eq, Structural, Debug)]
pub enum LinkEvent {
    /// The outstanding call failed in transport: network error, timeout, or
    /// an unreadable body.
    CallFailed,
    /// The embed API answered with a post; the flags describe the plan
    /// built from it.
    Resolved { has_media: bool, needs_thumbnail: bool },
    /// The embed API answered well-formed but reported no resolvable post.
    NoPost,
    /// The text summary was accepted by the room.
    TextSent,
    /// The asset fetch returned this status with a readable body.
    AssetFetched { status: u16 },
    /// The thumbnail fetch returned this status with a readable body.
    ThumbnailFetched { status: u16 },
    /// The attachment was accepted by the room.
    AttachmentSent,
}

/// The call the driver must make next, if any.
#[derive(Clone, Copy, PartialEq, Eq, Structural, Debug)]
pub enum LinkCall {
    SendText,
    FetchAsset,
    FetchThumbnail,
    SendAttachment,
}

/// One step of the per-link task: the next stage and the call the driver
/// must now make. An event that the stage does not await is ignored.
pub open spec fn link_step_spec(s: LinkStage, e: LinkEvent) -> (LinkStage, Option<LinkCall>) {
    match s {
        LinkStage::AwaitResolve => match e {
            LinkEvent::CallFailed => (LinkStage::Failed, None),
            LinkEvent::NoPost => (LinkStage::Failed, None),
            LinkEvent::Resolved { has_media, needs_thumbnail } => (
                LinkStage::AwaitTextSend { has_media, needs_thumbnail },
                Some(LinkCall::SendText),
            ),
            _ => (s, None),
        },
        LinkStage::AwaitTextSend { has_media, needs_thumbnail } => match e {
            LinkEvent::CallFailed => (LinkStage::Failed, None),
            LinkEvent::TextSent => {
                if has_media {
                    (LinkStage::AwaitAssetFetch { needs_thumbnail }, Some(LinkCall::FetchAsset))
                } else {
                    (LinkStage::Succeeded, None)
                }
            },
            _ => (s, None),
        },
        LinkStage::AwaitAssetFetch { needs_thumbnail } => match e {
            LinkEvent::CallFailed => (LinkStage::Failed, None),
            LinkEvent::AssetFetched { status } => {
                if !status_ok_spec(status) {
                    (LinkStage::Failed, None)
                } else if needs_thumbnail {
                    (LinkStage::AwaitThumbnailFetch, Some(LinkCall::FetchThumbnail))
                } else {
                    (LinkStage::AwaitAttachmentSend, Some(LinkCall::SendAttachment))
                }
            },
            _ => (s, None),
        },
        LinkStage::AwaitThumbnailFetch => match e {
            LinkEvent::CallFailed => (LinkStage::Failed, None),
            LinkEvent::ThumbnailFetched { status } => {
                if status_ok_spec(status) {
                    (LinkStage::AwaitAttachmentSend, Some(LinkCall::SendAttachment))
                } else {
                    (LinkStage::Failed, None)
                }
            },
            _ => (s, None),
        },
        LinkStage::AwaitAttachmentSend => match e {
            LinkEvent::CallFailed => (LinkStage::Failed, None),
            LinkEvent::AttachmentSent => (LinkStage::Succeeded, None),
            _ => (s, None),
        },
        LinkStage::Succeeded => (s, None),
        LinkStage::Failed => (s, None),
    }
}

/// Advances one link's task by one reported outcome.
pub fn link_step(s: LinkStage, e: LinkEvent) -> (r: (LinkStage, Option<LinkCall>))
    ensures
        r == link_step_spec(s, e),
{
    match s {
        LinkStage::AwaitResolve => match e {
            LinkEvent::CallFailed => (LinkStage::Failed, None),
            LinkEvent::NoPost => (LinkStage::Failed, None),
            LinkEvent::Resolved { has_media, needs_thumbnail } => (
                LinkStage::AwaitTextSend { has_media, needs_thumbnail },
                Some(LinkCall::SendText),
            ),
            _ => (s, None),
        },
        LinkStage::AwaitTextSend { has_media, needs_thumbnail } => match e {
            LinkEvent::CallFailed => (LinkStage::Failed, None),
            LinkEvent::TextSent => {
                if has_media {
                    (LinkStage::AwaitAssetFetch { needs_thumbnail }, Some(LinkCall::FetchAsset))
                } else {
                    (LinkStage::Succeeded, None)
                }
            },
            _ => (s, None),
        },
        LinkStage::AwaitAssetFetch { needs_thumbnail } => match e {
            LinkEvent::CallFailed => (LinkStage::Failed, None),
            LinkEvent::AssetFetched { status } => {
                if !status_ok(status) {
                    (LinkStage::Failed, None)
                } else if needs_thumbnail {
                    (LinkStage::AwaitThumbnailFetch, Some(LinkCall::FetchThumbnail))
                } else {
                    (LinkStage::AwaitAttachmentSend, Some(LinkCall::SendAttachment))
                }
            },
            _ => (s, None),
        },
        LinkStage::AwaitThumbnailFetch => match e {
            LinkEvent::CallFailed => (LinkStage::Failed, None),
            LinkEvent::ThumbnailFetched { status } => {
                if status_ok(status) {
                    (LinkStage::AwaitAttachmentSend, Some(LinkCall::SendAttachment))
                } else {
                    (LinkStage::Failed, None)
                }
            },
            _ => (s, None),
        },
        LinkStage::AwaitAttachmentSend => match e {
            LinkEvent::CallFailed => (LinkStage::Failed, None),
            LinkEvent::AttachmentSent => (LinkStage::Succeeded, None),
            _ => (s, None),
        },
        LinkStage::Succeeded => (s, None),
        LinkStage::Failed => (s, None),
    }
}

/// The stage a task reaches after a sequence of reported outcomes.
pub open spec fn run_stages(s: LinkStage, events: Seq<LinkEvent>) -> LinkStage
    decreases events.len(),
{
    if events.len() == 0 {
        s
    } else {
        link_step_spec(run_stages(s, events.drop_last()), events.last()).0
    }
}

/// The calls a task demands of its driver over a sequence of outcomes.
pub open spec fn run_calls(s: LinkStage, events: Seq<LinkEvent>) -> Seq<LinkCall>
    decreases events.len(),
{
    if events.len() == 0 {
        Seq::empty()
    } else {
        let prior = run_calls(s, events.drop_last());
        match link_step_spec(run_stages(s, events.drop_last()), events.last()).1 {
            Some(c) => prior.push(c),
            None => prior,
        }
    }
}

/// Whether a stage lies past the text send: the summary already stands.
pub open spec fn text_already_sent(s: LinkStage) -> bool {
    ||| s is AwaitAssetFetch
    ||| s is AwaitThumbnailFetch
    ||| s is AwaitAttachmentSend
}

/// The text summary stands before any attachment work: a task that is at
/// the asset fetch, thumbnail fetch or attachment send has seen its text
/// send confirmed. A failed fetch after that point therefore never takes
/// back the already-sent summary.
pub proof fn lemma_text_precedes_attachment_work(events: Seq<LinkEvent>)
    ensures
        text_already_sent(run_stages(LinkStage::AwaitResolve, events)) ==> events.contains(
            LinkEvent::TextSent,
        ),
    decreases events.len(),
{
    if events.len() > 0 {
        lemma_text_precedes_attachment_work(events.drop_last());
        if text_already_sent(run_stages(LinkStage::AwaitResolve, events)) {
            let prior = run_stages(LinkStage::AwaitResolve, events.drop_last());
            if text_already_sent(prior) {
                let i = choose|i: int|
                    0 <= i < events.drop_last().len() && events.drop_last()[i]
                        == LinkEvent::TextSent;
                assert(events[i] == LinkEvent::TextSent);
            } else {
                assert(events.last() == LinkEvent::TextSent);
                assert(events[events.len() - 1] == LinkEvent::TextSent);
            }
        }
    }
}

/// Whether an outcome was a successful asset fetch.
pub open spec fn asset_ok_event(e: LinkEvent) -> bool {
    match e {
        LinkEvent::AssetFetched { status } => status_ok_spec(status),
        _ => false,
    }
}

/// Whether some reported outcome was a successful asset fetch.
pub open spec fn saw_asset_fetched_ok(events: Seq<LinkEvent>) -> bool {
    exists|i: int| 0 <= i < events.len() && asset_ok_event(#[trigger] events[i])
}

/// An attachment is sent only from a fully fetched payload: a task at the
/// thumbnail fetch or the attachment send has seen its asset fetch succeed.
pub proof fn lemma_upload_follows_fetch(events: Seq<LinkEvent>)
    ensures
        ({
            let s = run_stages(LinkStage::AwaitResolve, events);
            s is AwaitThumbnailFetch || s is AwaitAttachmentSend
        }) ==> saw_asset_fetched_ok(events),
    decreases events.len(),
{
    if events.len() > 0 {
        lemma_upload_follows_fetch(events.drop_last());
        let s = run_stages(LinkStage::AwaitResolve, events);
        if s is AwaitThumbnailFetch || s is AwaitAttachmentSend {
            let prior = run_stages(LinkStage::AwaitResolve, events.drop_last());
            if prior is AwaitThumbnailFetch || prior is AwaitAttachmentSend {
                let i = choose|i: int|
                    0 <= i < events.drop_last().len() && asset_ok_event(
                        #[trigger] events.drop_last()[i],
                    );
                assert(asset_ok_event(events[i]));
            } else {
                assert(asset_ok_event(events.last()));
                assert(asset_ok_event(events[events.len() - 1]));
            }
        }
    }
}

/// A step never returns to the resolve stage, so the text summary is
/// requested at most once per link.
pub proof fn lemma_resolve_not_reentered(s: LinkStage, e: LinkEvent)
    ensures
        s is AwaitResolve || !(link_step_spec(s, e).0 is AwaitResolve),
{
}

/// A plan without media republishes as exactly one text message and no
/// attachment call: the resolve report demands the text send, and from then
/// on the task demands nothing further, whatever outcomes are reported.
pub proof fn lemma_no_media_single_text(tail: Seq<LinkEvent>)
    ensures
        link_step_spec(
            LinkStage::AwaitResolve,
            LinkEvent::Resolved { has_media: false, needs_thumbnail: false },
        ) == (
            LinkStage::AwaitTextSend { has_media: false, needs_thumbnail: false },
            Some(LinkCall::SendText),
        ),
        run_calls(LinkStage::AwaitTextSend { has_media: false, needs_thumbnail: false }, tail)
            == Seq::<LinkCall>::empty(),
{
    lemma_no_media_stays(tail);
}

/// From the text-send stage of a no-media plan, the task only ever moves to
/// a terminal stage and demands no further call.
pub proof fn lemma_no_media_stays(tail: Seq<LinkEvent>)
    ensures
        ({
            let s = run_stages(
                LinkStage::AwaitTextSend { has_media: false, needs_thumbnail: false },
                tail,
            );
            s is AwaitTextSend || s is Succeeded || s is Failed
        }),
        run_calls(LinkStage::AwaitTextSend { has_media: false, needs_thumbnail: false }, tail)
            =~= Seq::<LinkCall>::empty(),
        ({
            let s = run_stages(
                LinkStage::AwaitTextSend { has_media: false, needs_thumbnail: false },
                tail,
            );
            s is AwaitTextSend ==> s == LinkStage::AwaitTextSend {
                has_media: false,
                needs_thumbnail: false,
            }
        }),
    decreases tail.len(),
{
    if tail.len() > 0 {
        lemma_no_media_stays(tail.drop_last());
    }
}

} // verus!
