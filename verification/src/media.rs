//! The media-selection policy: at most one item of a post's media is
//! republished, chosen in strict priority order — video first (a `gif`
//! video is reclassified as an animated image and its asset URL rewritten),
//! then the composite image, then the first still photo, else nothing.

use vstd::prelude::*;
use vstd::string::*;
use crate::post::MediaSetView;
use crate::post::MediaSet;
use crate::text;
use crate::weblink::{UrlParts, UrlView, view_opt_string};

verus! {

/// The classification of the selected media item.
#[derive(Clone, Copy, PartialEq, Eq, Structural, Debug)]
pub enum MediaKind {
    Video,
    AnimatedImage,
    CompositeImage,
    StillImage,
}

/// An upload job derived from the selected media item: where to fetch the
/// asset, what to call it, its content type, and the metadata the room
/// attachment call needs.
pub struct UploadJob {
    pub kind: MediaKind,
    pub url: UrlParts,
    pub filename: String,
    pub content_type: String,
    pub width: Option<u32>,
    pub height: Option<u32>,
    pub duration_ms: Option<u64>,
    pub thumbnail_url: Option<UrlParts>,
}

/// The mathematical value of an [`UploadJob`].
#[verifier::ext_equal]
pub ghost struct UploadJobView {
    pub kind: MediaKind,
    pub url: UrlView,
    pub filename: Seq<char>,
    pub content_type: Seq<char>,
    pub width: Option<u32>,
    pub height: Option<u32>,
    pub duration_ms: Option<u64>,
    pub thumbnail_url: Option<UrlView>,
}

pub open spec fn view_opt_url(u: Option<UrlParts>) -> Option<UrlView> {
    match u {
        Some(x) => Some(x@),
        None => None,
    }
}

impl View for UploadJob {
    type V = UploadJobView;

    open spec fn view(&self) -> UploadJobView {
        UploadJobView {
            kind: self.kind,
            url: self.url@,
            filename: self.filename@,
            content_type: self.content_type@,
            width: self.width,
            height: self.height,
            duration_ms: self.duration_ms,
            thumbnail_url: view_opt_url(self.thumbnail_url),
        }
    }
}

/// A path with a trailing `.mp4` rewritten to `.gif`; other paths kept.
pub open spec fn gif_path(path: Seq<char>) -> Seq<char> {
    if text::ends_with_seq(path, ".mp4"@) {
        path.subrange(0, path.len() - 4) + ".gif"@
    } else {
        path
    }
}

/// Rewrites a trailing `.mp4` to `.gif`.
fn rewrite_mp4_to_gif(path: &str) -> (r: String)
    ensures
        r@ == gif_path(path@),
{
    let n: usize = path.unicode_len();
    if ends_with_mp4(path, n) {
        proof {
            reveal_strlit(".mp4");
        }
        let stem: &str = path.substring_char(0, n - 4);
        String::from_str(stem).concat(".gif")
    } else {
        String::from_str(path)
    }
}

/// Suffix test for `.mp4`, with the length already at hand.
fn ends_with_mp4(path: &str, n: usize) -> (r: bool)
    requires
        n == path@.len(),
    ensures
        r == text::ends_with_seq(path@, ".mp4"@),
{
    text::ends_with_str(path, ".mp4")
}

/// The upload job the selection policy yields for a post's media, if any.
/// `post_id` names the composite image's synthesized file.
pub open spec fn select_media_spec(media: Option<MediaSetView>, post_id: Seq<char>) -> Option<
    UploadJobView,
> {
    match media {
        None => None,
        Some(m) => {
            if m.videos.len() > 0 {
                let v = m.videos[0];
                if v.kind == "gif"@ {
                    let path = gif_path(v.url.path);
                    Some(
                        UploadJobView {
                            kind: MediaKind::AnimatedImage,
                            url: UrlView {
                                scheme: v.url.scheme,
                                host: "gif.fxtwitter.com"@,
                                path: path,
                                query: v.url.query,
                                fragment: v.url.fragment,
                            },
                            filename: text::suffix_after_last(path, '/'),
                            content_type: "image/gif"@,
                            width: None,
                            height: None,
                            duration_ms: None,
                            thumbnail_url: None,
                        },
                    )
                } else {
                    Some(
                        UploadJobView {
                            kind: MediaKind::Video,
                            url: v.url,
                            filename: text::suffix_after_last(v.url.path, '/'),
                            content_type: v.format,
                            width: Some(v.width),
                            height: Some(v.height),
                            duration_ms: Some(v.duration_ms),
                            thumbnail_url: Some(v.thumbnail_url),
                        },
                    )
                }
            } else if m.mosaic is Some {
                Some(
                    UploadJobView {
                        kind: MediaKind::CompositeImage,
                        url: m.mosaic->Some_0.webp_url,
                        filename: post_id + "_mosaic.webp"@,
                        content_type: "image/webp"@,
                        width: None,
                        height: None,
                        duration_ms: None,
                        thumbnail_url: None,
                    },
                )
            } else if m.photos.len() > 0 {
                let p = m.photos[0];
                let filename = text::suffix_after_last(p.url.path, '/');
                Some(
                    UploadJobView {
                        kind: MediaKind::StillImage,
                        url: p.url,
                        filename: filename,
                        content_type: still_content_type(filename),
                        width: Some(p.width),
                        height: Some(p.height),
                        duration_ms: None,
                        thumbnail_url: None,
                    },
                )
            } else {
                None
            }
        },
    }
}

/// The content type inferred from a still photo's filename: `.jpg` maps to
/// `image/jpeg`, any other extension to `image/` followed by the extension.
pub open spec fn still_content_type(filename: Seq<char>) -> Seq<char> {
    if text::ends_with_seq(filename, ".jpg"@) {
        "image/jpeg"@
    } else {
        "image/"@ + text::suffix_after_last(filename, '.')
    }
}

/// Infers a still photo's content type from its filename.
fn infer_still_content_type(filename: &str) -> (r: String)
    ensures
        r@ == still_content_type(filename@),
{
    if text::ends_with_str(filename, ".jpg") {
        String::from_str("image/jpeg")
    } else {
        let ext: String = text::after_last(filename, '.');
        String::from_str("image/").concat(ext.as_str())
    }
}

/// Applies the selection policy to a post's media. Picks the first video
/// (reclassifying a `gif` video as an animated image and rewriting its
/// asset URL to the GIF host), else the composite image, else the first
/// still photo, else nothing.
pub fn select_media(media: &Option<MediaSet>, post_id: &str) -> (r: Option<UploadJob>)
    ensures
        view_opt_job(r) == select_media_spec(crate::post::view_opt_media(*media), post_id@),
{
    match media {
        None => None,
        Some(m) => {
            if m.videos.len() > 0 {
                let v = &m.videos[0];
                proof {
                    assert(m@.videos[0] == m.videos@[0].deep_view());
                }
                if text::str_eq(v.kind.as_str(), "gif") {
                    let new_path: String = rewrite_mp4_to_gif(v.url.path.as_str());
                    let filename: String = text::after_last(new_path.as_str(), '/');
                    let job = UploadJob {
                        kind: MediaKind::AnimatedImage,
                        url: UrlParts {
                            scheme: v.url.scheme.clone(),
                            host: String::from_str("gif.fxtwitter.com"),
                            path: new_path,
                            query: clone_opt_string(&v.url.query),
                            fragment: clone_opt_string(&v.url.fragment),
                        },
                        filename: filename,
                        content_type: String::from_str("image/gif"),
                        width: None,
                        height: None,
                        duration_ms: None,
                        thumbnail_url: None,
                    };
                    proof {
                        assert(job@ =~= select_media_spec(
                            crate::post::view_opt_media(*media),
                            post_id@,
                        )->Some_0);
                    }
                    Some(job)
                } else {
                    let job = UploadJob {
                        kind: MediaKind::Video,
                        url: v.url.clone(),
                        filename: text::after_last(v.url.path.as_str(), '/'),
                        content_type: v.format.clone(),
                        width: Some(v.width),
                        height: Some(v.height),
                        duration_ms: Some(v.duration_ms),
                        thumbnail_url: Some(v.thumbnail_url.clone()),
                    };
                    proof {
                        assert(job@ =~= select_media_spec(
                            crate::post::view_opt_media(*media),
                            post_id@,
                        )->Some_0);
                    }
                    Some(job)
                }
            } else {
                match &m.mosaic {
                    Some(mosaic) => {
                        let filename: String = String::from_str(post_id).concat("_mosaic.webp");
                        let job = UploadJob {
                            kind: MediaKind::CompositeImage,
                            url: mosaic.webp_url.clone(),
                            filename: filename,
                            content_type: String::from_str("image/webp"),
                            width: None,
                            height: None,
                            duration_ms: None,
                            thumbnail_url: None,
                        };
                        proof {
                            assert(job@ =~= select_media_spec(
                                crate::post::view_opt_media(*media),
                                post_id@,
                            )->Some_0);
                        }
                        Some(job)
                    },
                    None => {
                        if m.photos.len() > 0 {
                            let p = &m.photos[0];
                            proof {
                                assert(m@.photos[0] == m.photos@[0].deep_view());
                            }
                            let filename: String = text::after_last(p.url.path.as_str(), '/');
                            let content_type: String = infer_still_content_type(filename.as_str());
                            let job = UploadJob {
                                kind: MediaKind::StillImage,
                                url: p.url.clone(),
                                filename: filename,
                                content_type: content_type,
                                width: Some(p.width),
                                height: Some(p.height),
                                duration_ms: None,
                                thumbnail_url: None,
                            };
                            proof {
                                assert(job@ =~= select_media_spec(
                                    crate::post::view_opt_media(*media),
                                    post_id@,
                                )->Some_0);
                            }
                            Some(job)
                        } else {
                            None
                        }
                    },
                }
            }
        },
    }
}

pub open spec fn view_opt_job(r: Option<UploadJob>) -> Option<UploadJobView> {
    match r {
        Some(j) => Some(j@),
        None => None,
    }
}

/// Clones an optional string, keeping its value.
fn clone_opt_string(s: &Option<String>) -> (r: Option<String>)
    ensures
        view_opt_string(r) == view_opt_string(*s),
{
    match s {
        Some(t) => Some(t.clone()),
        None => None,
    }
}

/// With at least one video present, the policy always selects it — as a
/// video or, for a `gif` video, as an animated image — regardless of what
/// photos or composite image the post also carries.
pub proof fn lemma_video_priority(m: MediaSetView, post_id: Seq<char>)
    requires
        m.videos.len() > 0,
    ensures
        select_media_spec(Some(m), post_id) is Some,
        select_media_spec(Some(m), post_id)->Some_0.kind == MediaKind::Video
            || select_media_spec(Some(m), post_id)->Some_0.kind == MediaKind::AnimatedImage,
{
}

/// With no media at all, the policy selects nothing.
pub proof fn lemma_no_media_no_job(post_id: Seq<char>)
    ensures
        select_media_spec(None, post_id) is None,
{
}

} // verus!
