//! The library's model of a resolved post: author, body text, counters,
//! creation time, and the optional media set, all as plain values.

use vstd::prelude::*;
use crate::weblink::{UrlParts, UrlView};

verus! {

/// One video attached to a post.
pub struct VideoInfo {
    pub url: UrlParts,
    pub width: u32,
    pub height: u32,
    pub duration_ms: u64,
    /// MIME type declared by the resolver, e.g. `video/mp4`.
    pub format: String,
    /// The resolver's declared kind; `gif` marks an animated image served
    /// as a video.
    pub kind: String,
    pub thumbnail_url: UrlParts,
}

/// The mathematical value of a [`VideoInfo`].
#[verifier::ext_equal]
pub ghost struct VideoInfoView {
    pub url: UrlView,
    pub width: u32,
    pub height: u32,
    pub duration_ms: u64,
    pub format: Seq<char>,
    pub kind: Seq<char>,
    pub thumbnail_url: UrlView,
}

impl View for VideoInfo {
    type V = VideoInfoView;

    open spec fn view(&self) -> VideoInfoView {
        VideoInfoView {
            url: self.url@,
            width: self.width,
            height: self.height,
            duration_ms: self.duration_ms,
            format: self.format@,
            kind: self.kind@,
            thumbnail_url: self.thumbnail_url@,
        }
    }
}

impl DeepView for VideoInfo {
    type V = VideoInfoView;

    open spec fn deep_view(&self) -> VideoInfoView {
        self.view()
    }
}

/// One still photo attached to a post.
pub struct PhotoInfo {
    pub url: UrlParts,
    pub width: u32,
    pub height: u32,
}

/// The mathematical value of a [`PhotoInfo`].
#[verifier::ext_equal]
pub ghost struct PhotoInfoView {
    pub url: UrlView,
    pub width: u32,
    pub height: u32,
}

impl View for PhotoInfo {
    type V = PhotoInfoView;

    open spec fn view(&self) -> PhotoInfoView {
        PhotoInfoView { url: self.url@, width: self.width, height: self.height }
    }
}

impl DeepView for PhotoInfo {
    type V = PhotoInfoView;

    open spec fn deep_view(&self) -> PhotoInfoView {
        self.view()
    }
}

/// The composite rendition of a multi-image post.
pub struct MosaicInfo {
    pub webp_url: UrlParts,
}

/// The mathematical value of a [`MosaicInfo`].
#[verifier::ext_equal]
pub ghost struct MosaicInfoView {
    pub webp_url: UrlView,
}

impl View for MosaicInfo {
    type V = MosaicInfoView;

    open spec fn view(&self) -> MosaicInfoView {
        MosaicInfoView { webp_url: self.webp_url@ }
    }
}

/// The media attached to a post: any number of videos and photos and an
/// optional composite image.
pub struct MediaSet {
    pub videos: Vec<VideoInfo>,
    pub mosaic: Option<MosaicInfo>,
    pub photos: Vec<PhotoInfo>,
}

/// The mathematical value of a [`MediaSet`].
#[verifier::ext_equal]
pub ghost struct MediaSetView {
    pub videos: Seq<VideoInfoView>,
    pub mosaic: Option<MosaicInfoView>,
    pub photos: Seq<PhotoInfoView>,
}

pub open spec fn view_opt_mosaic(m: Option<MosaicInfo>) -> Option<MosaicInfoView> {
    match m {
        Some(x) => Some(x@),
        None => None,
    }
}

impl View for MediaSet {
    type V = MediaSetView;

    open spec fn view(&self) -> MediaSetView {
        MediaSetView {
            videos: self.videos.deep_view(),
            mosaic: view_opt_mosaic(self.mosaic),
            photos: self.photos.deep_view(),
        }
    }
}

/// A resolved post: the normalized result of the embed API for one
/// candidate link.
pub struct Post {
    pub id: String,
    pub author_name: String,
    pub author_handle: String,
    pub text: String,
    pub replies: i64,
    pub retweets: i64,
    pub likes: i64,
    pub views: i64,
    /// Creation time as seconds since the Unix epoch.
    pub created_timestamp: i64,
    pub media: Option<MediaSet>,
}

/// The mathematical value of a [`Post`].
#[verifier::ext_equal]
pub ghost struct PostView {
    pub id: Seq<char>,
    pub author_name: Seq<char>,
    pub author_handle: Seq<char>,
    pub text: Seq<char>,
    pub replies: i64,
    pub retweets: i64,
    pub likes: i64,
    pub views: i64,
    pub created_timestamp: i64,
    pub media: Option<MediaSetView>,
}

pub open spec fn view_opt_media(m: Option<MediaSet>) -> Option<MediaSetView> {
    match m {
        Some(x) => Some(x@),
        None => None,
    }
}

impl View for Post {
    type V = PostView;

    open spec fn view(&self) -> PostView {
        PostView {
            id: self.id@,
            author_name: self.author_name@,
            author_handle: self.author_handle@,
            text: self.text@,
            replies: self.replies,
            retweets: self.retweets,
            likes: self.likes,
            views: self.views,
            created_timestamp: self.created_timestamp,
            media: view_opt_media(self.media),
        }
    }
}

} // verus!
