use bilidl::app_state::{AppState, DownloadView, QueryCardInfoRust};
use bilidl::bilibili::modules::{BiliInfo, Upper, Video};
use bilidl::errors::BiliError;
use bilidl::event_loop::AppEvent;
use bilidl::frontend::CoverImage;
use bilidl::handlers::{handle_video_info, query_kind, QueryKind};

fn video(videos: i64) -> Video {
    Video {
        info: BiliInfo {
            aid: 1,
            bvid: "BV1xx".to_string(),
            cid: 2,
            title: "Title".to_string(),
            pic: "pic".to_string(),
            author: "Title".to_string(),
            videos,
            tid: 0,
            tid_v2: 0,
            tname: String::new(),
            tname_v2: String::new(),
            pubdate: 0,
            desc: String::new(),
        },
        player_info: None,
        stream: None,
        flac_stream: None,
        meta: None,
        upper: Upper { mid: 3, name: "Uploader".to_string(), avatar: "a".to_string() },
        parts: vec![],
    }
}

fn cover() -> CoverImage {
    CoverImage::from_rgba8(1, 1, vec![255, 0, 0, 255])
}

#[test]
fn initial_state_is_blank() {
    let s = AppState::new();
    assert!(s.current_item.is_none());
    assert!(s.task_list.is_empty() && s.temp_task_list.is_empty());
    let d = &s.views.download_view;
    assert_eq!((d.download_view_index, d.create_task_view_index), (0, 0));
    assert!(!d.query_is_info_showing && !d.query_is_querying);
    let c: QueryCardInfoRust = Default::default();
    assert_eq!((c.bvid.as_str(), c.title.as_str(), c.author.as_str(), c.count), ("", "", "", 0));
    assert_eq!((c.cover.width, c.cover.height, c.cover.pixels.len()), (0, 0, 0));
    let v: DownloadView = Default::default();
    assert!(!v.query_is_querying);
}

#[test]
fn query_kinds() {
    assert!(matches!(query_kind(0), Ok(QueryKind::Video)));
    let e = query_kind(1).err().unwrap();
    assert!(matches!(e, BiliError::InvalidQueryType));
    assert_eq!(e.message(), "invalid query_type");
    assert!(query_kind(-1).is_err());
}

#[test]
fn card_from_video() {
    let card = handle_video_info(video(3), cover());
    assert_eq!(card.bvid, "BV1xx");
    assert_eq!(card.title, "Title");
    assert_eq!(card.author, "Uploader");
    assert_eq!(card.count, 3);
    assert_eq!(card.cover.pixels, vec![255, 0, 0, 255]);
}

#[test]
fn card_count_keeps_low_bits() {
    assert_eq!(handle_video_info(video((1i64 << 32) + 5), cover()).count, 5);
    assert_eq!(handle_video_info(video(0xffff_ffff), cover()).count, -1);
}

#[test]
fn successful_query_round() {
    let mut s = AppState::new();
    let q = s.handle_event(AppEvent::QueryBiliInfo("BV1xx".to_string(), 0));
    assert_eq!(q, Some(("BV1xx".to_string(), 0)));
    assert!(s.views.download_view.query_is_querying);
    assert!(!s.views.download_view.query_is_info_showing);
    s.finish_query(Some((video(2), cover())));
    let d = &s.views.download_view;
    assert!(!d.query_is_querying);
    assert!(d.query_is_info_showing);
    assert_eq!(d.query_card_info.bvid, "BV1xx");
    assert_eq!(d.query_card_info.count, 2);
}

#[test]
fn failed_query_round() {
    let mut s = AppState::new();
    let _ = s.handle_event(AppEvent::QueryBiliInfo("BVbad".to_string(), 0));
    s.finish_query(None);
    let d = &s.views.download_view;
    assert!(!d.query_is_querying);
    assert!(!d.query_is_info_showing);
    assert_eq!(d.query_card_info.bvid, "");
}

#[test]
fn page_switch() {
    let mut s = AppState::new();
    assert_eq!(s.handle_event(AppEvent::SetDownloadViewIndex(1)), None);
    assert_eq!(s.views.download_view.download_view_index, 1);
    assert!(!s.views.download_view.query_is_querying);
    assert_eq!(s.handle_event(AppEvent::SetDownloadViewIndex(0)), None);
    assert_eq!(s.views.download_view.download_view_index, 0);
}
