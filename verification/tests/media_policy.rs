//! The media-selection policy: priority order, the gif rewrite, content
//! types, and the text-only plan for a post without media.

use fxbridge::media::{select_media, MediaKind};
use fxbridge::pipeline::republish_plan;
use fxbridge::post::{MediaSet, MosaicInfo, PhotoInfo, Post, VideoInfo};
use fxbridge::weblink::UrlParts;

fn url(host: &str, path: &str) -> UrlParts {
    UrlParts {
        scheme: "https".to_string(),
        host: host.to_string(),
        path: path.to_string(),
        query: None,
        fragment: None,
    }
}

fn video(kind: &str, path: &str) -> VideoInfo {
    VideoInfo {
        url: url("video.twimg.com", path),
        width: 1280,
        height: 720,
        duration_ms: 9500,
        format: "video/mp4".to_string(),
        kind: kind.to_string(),
        thumbnail_url: url("pbs.twimg.com", "/thumb.jpg"),
    }
}

fn photo(path: &str) -> PhotoInfo {
    PhotoInfo { url: url("pbs.twimg.com", path), width: 800, height: 600 }
}

fn post_with(media: Option<MediaSet>) -> Post {
    Post {
        id: "99".to_string(),
        author_name: "Alice".to_string(),
        author_handle: "alice".to_string(),
        text: "hi".to_string(),
        replies: 0,
        retweets: 0,
        likes: 0,
        views: 0,
        created_timestamp: 1700000000,
        media,
    }
}

#[test]
fn video_wins_over_photos_and_mosaic() {
    let media = MediaSet {
        videos: vec![video("video", "/vid/abc.mp4")],
        mosaic: Some(MosaicInfo { webp_url: url("mosaic.fxembed.com", "/m.webp") }),
        photos: vec![photo("/p/one.jpg")],
    };
    let job = select_media(&Some(media), "99").expect("video selected");
    assert_eq!(job.kind, MediaKind::Video);
    assert_eq!(job.url.host, "video.twimg.com");
    assert_eq!(job.filename, "abc.mp4");
    assert_eq!(job.content_type, "video/mp4");
    assert_eq!(job.width, Some(1280));
    assert_eq!(job.height, Some(720));
    assert_eq!(job.duration_ms, Some(9500));
    assert!(job.thumbnail_url.is_some());
}

#[test]
fn gif_video_becomes_animated_image() {
    let media = MediaSet {
        videos: vec![video("gif", "/vid/loop.mp4")],
        mosaic: None,
        photos: vec![],
    };
    let job = select_media(&Some(media), "99").expect("gif selected");
    assert_eq!(job.kind, MediaKind::AnimatedImage);
    assert_eq!(job.url.host, "gif.fxtwitter.com");
    assert_eq!(job.url.path, "/vid/loop.gif");
    assert_eq!(job.filename, "loop.gif");
    assert_eq!(job.content_type, "image/gif");
    assert_eq!(job.width, None);
    assert_eq!(job.duration_ms, None);
    assert!(job.thumbnail_url.is_none());
}

#[test]
fn mosaic_when_no_video() {
    let media = MediaSet {
        videos: vec![],
        mosaic: Some(MosaicInfo { webp_url: url("mosaic.fxembed.com", "/m.webp") }),
        photos: vec![photo("/p/one.jpg")],
    };
    let job = select_media(&Some(media), "99").expect("mosaic selected");
    assert_eq!(job.kind, MediaKind::CompositeImage);
    assert_eq!(job.filename, "99_mosaic.webp");
    assert_eq!(job.content_type, "image/webp");
}

#[test]
fn first_photo_when_nothing_else() {
    let media = MediaSet {
        videos: vec![],
        mosaic: None,
        photos: vec![photo("/p/one.jpg"), photo("/p/two.png")],
    };
    let job = select_media(&Some(media), "99").expect("photo selected");
    assert_eq!(job.kind, MediaKind::StillImage);
    assert_eq!(job.filename, "one.jpg");
    assert_eq!(job.content_type, "image/jpeg");
    assert_eq!(job.width, Some(800));
    assert_eq!(job.height, Some(600));
}

#[test]
fn photo_content_type_from_extension() {
    let media = MediaSet { videos: vec![], mosaic: None, photos: vec![photo("/p/pic.png")] };
    let job = select_media(&Some(media), "99").expect("photo selected");
    assert_eq!(job.content_type, "image/png");
}

#[test]
fn empty_media_set_selects_nothing() {
    let media = MediaSet { videos: vec![], mosaic: None, photos: vec![] };
    assert!(select_media(&Some(media), "99").is_none());
}

#[test]
fn no_media_plan_is_text_only() {
    let plan = republish_plan(&post_with(None));
    assert!(plan.job.is_none());
    assert!(plan.summary.starts_with("Alice (@alice)\nhi\n"));
}
