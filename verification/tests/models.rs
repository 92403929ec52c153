use bilidl::bilibili::modules::{
    AudioQuality, BiliInfo, BiliStream, Meta, PlayerInfo, Subtitle, Upper, Video, VideoPart,
    STREAM_URL_LIFETIME_SECS,
};
use bilidl::bilibili::task_modules::{self, Task, TaskType};
use bilidl::json::JsonValue;
use bilidl::clock::Timestamp;

fn convert(v: &serde_json::Value) -> JsonValue {
    match v {
        serde_json::Value::Null => JsonValue::Null,
        serde_json::Value::Bool(b) => JsonValue::Bool(*b),
        serde_json::Value::Number(n) => match n.as_i64() {
            Some(i) => JsonValue::Int(i),
            None => JsonValue::OtherNumber,
        },
        serde_json::Value::String(s) => JsonValue::Str(s.clone()),
        serde_json::Value::Array(a) => JsonValue::Array(a.iter().map(convert).collect()),
        serde_json::Value::Object(m) => {
            JsonValue::Object(m.iter().map(|(k, v)| (k.clone(), convert(v))).collect())
        }
    }
}

fn parse(text: &str) -> JsonValue {
    convert(&serde_json::from_str(text).unwrap())
}

const INFO: &str = r#"{"aid": 170001, "bvid": "BV17x411w7KC", "cid": 279786, "title": "Song",
  "pic": "http://i0.hdslb.com/a.jpg", "videos": 2, "tid": 3, "tid_v2": 2003, "tname": "Music",
  "tname_v2": "Cover", "pubdate": 1700000000, "desc": "about",
  "owner": {"mid": 42, "name": "uploader", "face": "http://face"},
  "pages": [{"cid": 1, "page": 1, "part": "P1", "duration": 60},
            {"cid": 2, "page": 2, "part": 5, "duration": 61},
            {"cid": 3, "page": 3, "part": "P3", "duration": 62}]}"#;

#[test]
fn bili_info_reads_every_field() {
    let info = BiliInfo::from_json(&parse(INFO)).unwrap();
    assert_eq!(info.aid, 170001);
    assert_eq!(info.bvid, "BV17x411w7KC");
    assert_eq!(info.cid, 279786);
    assert_eq!(info.title, "Song");
    assert_eq!(info.pic, "http://i0.hdslb.com/a.jpg");
    assert_eq!(info.author, "Song");
    assert_eq!(info.videos, 2);
    assert_eq!(info.tid, 3);
    assert_eq!(info.tid_v2, 2003);
    assert_eq!(info.tname, "Music");
    assert_eq!(info.tname_v2, "Cover");
    assert_eq!(info.pubdate, 1700000000);
    assert_eq!(info.desc, "about");
}

#[test]
fn bili_info_needs_every_field() {
    let v = parse(r#"{"aid": 1, "bvid": "b", "cid": 2, "title": "t", "pic": "p", "videos": 1,
        "tid": 1, "tid_v2": 1, "tname": "n", "tname_v2": "n2", "pubdate": "later", "desc": "d"}"#);
    assert!(BiliInfo::from_json(&v).is_none());
    assert!(BiliInfo::from_json(&JsonValue::Null).is_none());
}

#[test]
fn upper_reads_face_as_avatar() {
    let v = parse(r#"{"mid": 42, "name": "uploader", "face": "http://face"}"#);
    let upper = Upper::from_json(&v).unwrap();
    assert_eq!(upper.mid, 42);
    assert_eq!(upper.name, "uploader");
    assert_eq!(upper.avatar, "http://face");
    assert!(Upper::from_json(&parse(r#"{"mid": 42, "name": "uploader"}"#)).is_none());
}

#[test]
fn meta_reads_title_twice_and_no_lyrics() {
    let meta = Meta::from_json(&parse(INFO)).unwrap();
    assert_eq!(meta.title, "Song");
    assert_eq!(meta.author, "Song");
    assert_eq!(meta.cover_url, "http://i0.hdslb.com/a.jpg");
    assert_eq!(meta.lyrics_path, "");
    assert!(Meta::from_json(&parse(r#"{"title": "x"}"#)).is_none());
}

#[test]
fn parts_skip_entries_that_do_not_read() {
    let v = parse(INFO);
    let parts = VideoPart::from_json_array(v.get("pages"));
    assert_eq!(parts.len(), 2);
    assert_eq!((parts[0].cid, parts[0].page, parts[0].title.as_str(), parts[0].duration), (1, 1, "P1", 60));
    assert_eq!((parts[1].cid, parts[1].page, parts[1].title.as_str(), parts[1].duration), (3, 3, "P3", 62));
    assert!(VideoPart::from_json_array(v.get("owner")).is_empty());
    assert!(VideoPart::from_json_array(None).is_empty());
}

#[test]
fn subtitle_reads_its_fields() {
    let v = parse(r#"{"id": 9, "lan": "zh-CN", "lan_doc": "Chinese", "author_mid": 5,
        "subtitle_url": "//u1", "subtitle_url_v2": "//u2", "type": 1}"#);
    let s = Subtitle::from_json(&v).unwrap();
    assert_eq!(
        (s.id, s.lang.as_str(), s.lang_doc.as_str(), s.author_mid, s.url.as_str(), s.url_v2.as_str(), s.subtitle_type),
        (9, "zh-CN", "Chinese", 5, "//u1", "//u2", 1)
    );
}

const PLAYER: &str = r#"{"bgm_info": {"music_id": "MA1", "music_title": "BGM: 《Blue Bird》 (cover)",
  "jump_url": "https://music"},
  "subtitle": {"subtitles": [
    {"id": 1, "lan": "zh", "lan_doc": "Chinese", "author_mid": 5, "subtitle_url": "a", "subtitle_url_v2": "a2", "type": 0},
    {"id": 2, "lan": "ai-zh", "lan_doc": "AI", "author_mid": 0, "subtitle_url": "b", "subtitle_url_v2": "b2", "type": 1},
    {"id": 3, "lan": "en"},
    {"id": 4, "lan": "en", "lan_doc": "English", "author_mid": 6, "subtitle_url": "c", "subtitle_url_v2": "c2", "type": 0}]}}"#;

#[test]
fn player_info_keeps_user_subtitles() {
    let v = parse(PLAYER);
    assert!(PlayerInfo::has_subtitle_list(&v));
    let p = PlayerInfo::from_json(&v).unwrap();
    assert_eq!(p.bgm_id, "MA1");
    assert_eq!(p.bgm_title, "Blue Bird");
    assert_eq!(p.bgm_jump_url, "https://music");
    let subs = p.subtitles.unwrap();
    assert_eq!(subs.iter().map(|s| s.id).collect::<Vec<_>>(), vec![1, 4]);
}

#[test]
fn player_info_without_user_subtitles_has_none() {
    let v = parse(r#"{"bgm_info": {"music_id": "MA1", "music_title": "《t》", "jump_url": "j"},
        "subtitle": {"subtitles": []}}"#);
    let p = PlayerInfo::from_json(&v).unwrap();
    assert!(p.subtitles.is_none());
    assert_eq!(p.bgm_title, "t");
}

#[test]
fn player_info_needs_a_quoted_title() {
    let v = parse(r#"{"bgm_info": {"music_id": "MA1", "music_title": "no quotes", "jump_url": "j"},
        "subtitle": {"subtitles": []}}"#);
    assert!(PlayerInfo::from_json(&v).is_none());
    assert!(!PlayerInfo::has_subtitle_list(&parse(r#"{"subtitle": {}}"#)));
}

#[test]
fn audio_quality_from_known_ids() {
    assert_eq!(AudioQuality::from_num(30216), AudioQuality::Low64K);
    assert_eq!(AudioQuality::from_num(30232), AudioQuality::Medium132K);
    assert_eq!(AudioQuality::from_num(30280), AudioQuality::High192K);
    assert_eq!(AudioQuality::from_num(30250), AudioQuality::Dolby);
    assert_eq!(AudioQuality::from_num(30251), AudioQuality::HiRes);
    assert_eq!(AudioQuality::from_num(0), AudioQuality::Unknown);
    assert_eq!(AudioQuality::from_num(30217), AudioQuality::Unknown);
}

const SEC: i128 = 1_000_000_000;

fn stream(url: &str, get_time: Timestamp) -> BiliStream {
    BiliStream {
        quality: AudioQuality::High192K,
        base_url: url.to_string(),
        codecs: "mp4a.40.2".to_string(),
        get_time,
    }
}

#[test]
fn bili_stream_reads_quality_and_address() {
    let v = parse(r#"{"id": 30280, "base_url": "https://up/a.m4s", "codecs": "mp4a.40.2"}"#);
    let s = BiliStream::from_json(&v).unwrap();
    let at = BiliStream::from_json_at(&v, Timestamp { since_epoch_nanos: 42 }).unwrap();
    assert_eq!(at.get_time, Timestamp { since_epoch_nanos: 42 });
    assert_eq!(at.base_url, "https://up/a.m4s");
    assert_eq!(s.quality, AudioQuality::High192K);
    assert_eq!(s.base_url, "https://up/a.m4s");
    assert_eq!(s.codecs, "mp4a.40.2");
    assert!(BiliStream::from_json(&parse(r#"{"id": 30280, "codecs": "c"}"#)).is_none());
}

#[test]
fn stream_url_lasts_twenty_five_minutes() {
    let got = Timestamp { since_epoch_nanos: 1_700_000_000 * SEC };
    let s = stream("https://a", got);
    let at = |d: i128| s.url_at(Timestamp { since_epoch_nanos: got.since_epoch_nanos + d });
    assert_eq!(STREAM_URL_LIFETIME_SECS, 1500);
    assert_eq!(at(0), Some("https://a".to_string()));
    assert_eq!(at(1500 * SEC - 1), Some("https://a".to_string()));
    assert_eq!(at(1500 * SEC), None);
    assert_eq!(at(7200 * SEC), None);
    assert!(s.obtained_by(Timestamp { since_epoch_nanos: got.since_epoch_nanos }));
    assert!(!s.obtained_by(Timestamp { since_epoch_nanos: got.since_epoch_nanos - 1 }));
}

#[test]
fn stream_url_at_extreme_instants() {
    let s = stream("u", Timestamp { since_epoch_nanos: i128::MIN });
    assert_eq!(s.url_at(Timestamp { since_epoch_nanos: i128::MAX }), None);
    let s = stream("u", Timestamp { since_epoch_nanos: i128::MAX });
    assert!(!s.obtained_by(Timestamp { since_epoch_nanos: i128::MIN }));
    assert_eq!(s.url_at(Timestamp { since_epoch_nanos: i128::MAX }), Some("u".to_string()));
}

#[test]
fn stream_url_by_the_clock() {
    let now = Timestamp::now().since_epoch_nanos;
    let fresh = stream("https://fresh", Timestamp { since_epoch_nanos: now });
    assert_eq!(fresh.get_stream_url(), Some("https://fresh".to_string()));
    let old = stream("https://old", Timestamp { since_epoch_nanos: now - 1600 * SEC });
    assert_eq!(old.get_stream_url(), None);
    let future = stream("https://future", Timestamp { since_epoch_nanos: now + 3600 * SEC });
    assert_eq!(future.get_stream_url(), None);
}

#[test]
fn clock_readings_as_instants() {
    assert_eq!(Timestamp::from_reading(Ok((3, 5))), Timestamp { since_epoch_nanos: 3 * SEC + 5 });
    assert_eq!(Timestamp::from_reading(Err((2, 1))), Timestamp { since_epoch_nanos: -(2 * SEC + 1) });
    assert_eq!(
        Timestamp::from_reading(Ok((u64::MAX, 999_999_999))).since_epoch_nanos,
        (u64::MAX as i128) * SEC + 999_999_999
    );
    assert!(Timestamp::now().since_epoch_nanos > 1_600_000_000 * SEC);
}

fn video_with_parts(n: i64) -> Video {
    let v = parse(INFO);
    Video {
        info: BiliInfo::from_json(&v).unwrap(),
        player_info: None,
        stream: None,
        flac_stream: None,
        meta: None,
        upper: Upper::from_json(v.get("owner").unwrap()).unwrap(),
        parts: (1..=n)
            .map(|i| VideoPart { cid: 100 + i, page: i, title: format!("P{}", i), duration: 30 * i })
            .collect(),
    }
}

#[test]
fn tasks_one_per_part() {
    let tasks = Task::from_video(video_with_parts(3));
    assert_eq!(tasks.len(), 3);
    for (i, t) in tasks.iter().enumerate() {
        assert_eq!(t.task_type, TaskType::Video);
        assert_eq!(t.video.info.bvid, "BV17x411w7KC");
        assert_eq!(t.video.parts.len(), 3);
        let part = t.part_data.as_ref().unwrap();
        assert_eq!(part.page, i as i64 + 1);
        assert_eq!(part.title, format!("P{}", i + 1));
    }
    assert!(Task::from_video(video_with_parts(0)).is_empty());
}

#[test]
fn task_meta_is_never_found() {
    assert!(task_modules::Meta::from_video(video_with_parts(1)).is_none());
}

#[test]
fn clones_are_equal() {
    let v = video_with_parts(2);
    let c = v.clone();
    assert_eq!(c.info.aid, v.info.aid);
    assert_eq!(c.upper.name, v.upper.name);
    assert_eq!(c.parts.len(), 2);
    assert_eq!(c.parts[1].title, "P2");
}
