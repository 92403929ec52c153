//! The records that the Bilibili web API describes a video with, and how
//! each is read from the JSON of a response.

use crate::bilibili::utils::{bracketed_title, extract_title};
use crate::clock::{Timestamp, NANOS_PER_SEC};
use crate::json::{i64_of, member, member_of, opt_str_view, or_null, str_at, i64_at, string_of, JsonValue};
use vstd::prelude::*;

verus! {

/// How long a stream address stays usable after it was obtained: 25 minutes.
pub const STREAM_URL_LIFETIME_SECS: u64 = 1500;

/// The basic description of a video.
pub struct BiliInfo {
    pub aid: i64,
    pub bvid: String,
    pub cid: i64,
    pub title: String,
    pub pic: String,
    pub author: String,
    /// The number of parts.
    pub videos: i64,
    /// The zone.
    pub tid: i64,
    pub tid_v2: i64,
    /// The name of the sub-zone.
    pub tname: String,
    pub tname_v2: String,
    /// Publication time, in seconds.
    pub pubdate: i64,
    pub desc: String,
}

pub struct BiliInfoView {
    pub aid: i64,
    pub bvid: Seq<char>,
    pub cid: i64,
    pub title: Seq<char>,
    pub pic: Seq<char>,
    pub author: Seq<char>,
    pub videos: i64,
    pub tid: i64,
    pub tid_v2: i64,
    pub tname: Seq<char>,
    pub tname_v2: Seq<char>,
    pub pubdate: i64,
    pub desc: Seq<char>,
}

impl View for BiliInfo {
    type V = BiliInfoView;

    open spec fn view(&self) -> BiliInfoView {
        BiliInfoView {
            aid: self.aid,
            bvid: self.bvid@,
            cid: self.cid,
            title: self.title@,
            pic: self.pic@,
            author: self.author@,
            videos: self.videos,
            tid: self.tid,
            tid_v2: self.tid_v2,
            tname: self.tname@,
            tname_v2: self.tname_v2@,
            pubdate: self.pubdate,
            desc: self.desc@,
        }
    }
}

impl DeepView for BiliInfo {
    type V = BiliInfoView;

    open spec fn deep_view(&self) -> BiliInfoView {
        self@
    }
}

impl BiliInfo {
    /// What `from_json` reads from `json`: every field must be present with
    /// the right type.  The author is read from the `title` member.
    pub open spec fn spec_from_json(json: JsonValue) -> Option<BiliInfoView> {
        if i64_at(json, "aid"@) is Some && str_at(json, "bvid"@) is Some && i64_at(json, "cid"@) is Some
            && str_at(json, "title"@) is Some && str_at(json, "pic"@) is Some
            && i64_at(json, "videos"@) is Some && i64_at(json, "tid"@) is Some
            && i64_at(json, "tid_v2"@) is Some && str_at(json, "tname"@) is Some
            && str_at(json, "tname_v2"@) is Some && i64_at(json, "pubdate"@) is Some
            && str_at(json, "desc"@) is Some {
            Some(
                BiliInfoView {
                    aid: i64_at(json, "aid"@).unwrap(),
                    bvid: str_at(json, "bvid"@).unwrap(),
                    cid: i64_at(json, "cid"@).unwrap(),
                    title: str_at(json, "title"@).unwrap(),
                    pic: str_at(json, "pic"@).unwrap(),
                    author: str_at(json, "title"@).unwrap(),
                    videos: i64_at(json, "videos"@).unwrap(),
                    tid: i64_at(json, "tid"@).unwrap(),
                    tid_v2: i64_at(json, "tid_v2"@).unwrap(),
                    tname: str_at(json, "tname"@).unwrap(),
                    tname_v2: str_at(json, "tname_v2"@).unwrap(),
                    pubdate: i64_at(json, "pubdate"@).unwrap(),
                    desc: str_at(json, "desc"@).unwrap(),
                },
            )
        } else {
            None
        }
    }

    /// Reads the description of a video from the `data` member of a
    /// video-details response.
    pub fn from_json(json: &JsonValue) -> (r: Option<BiliInfo>)
        ensures
            r.deep_view() == BiliInfo::spec_from_json(*json),
    {
        let j = Some(json);
        let aid = i64_of(member_of(j, "aid"))?;
        let bvid = string_of(member_of(j, "bvid"))?;
        let cid = i64_of(member_of(j, "cid"))?;
        let title = string_of(member_of(j, "title"))?;
        let pic = string_of(member_of(j, "pic"))?;
        let author = string_of(member_of(j, "title"))?;
        let videos = i64_of(member_of(j, "videos"))?;
        let tid = i64_of(member_of(j, "tid"))?;
        let tid_v2 = i64_of(member_of(j, "tid_v2"))?;
        let tname = string_of(member_of(j, "tname"))?;
        let tname_v2 = string_of(member_of(j, "tname_v2"))?;
        let pubdate = i64_of(member_of(j, "pubdate"))?;
        let desc = string_of(member_of(j, "desc"))?;
        Some(
            BiliInfo {
                aid,
                bvid,
                cid,
                title,
                pic,
                author,
                videos,
                tid,
                tid_v2,
                tname,
                tname_v2,
                pubdate,
                desc,
            },
        )
    }
}

impl Clone for BiliInfo {
    fn clone(&self) -> (r: Self)
        ensures
            r == *self,
    {
        BiliInfo {
            aid: self.aid,
            bvid: self.bvid.clone(),
            cid: self.cid,
            title: self.title.clone(),
            pic: self.pic.clone(),
            author: self.author.clone(),
            videos: self.videos,
            tid: self.tid,
            tid_v2: self.tid_v2,
            tname: self.tname.clone(),
            tname_v2: self.tname_v2.clone(),
            pubdate: self.pubdate,
            desc: self.desc.clone(),
        }
    }
}


/// A subtitle track of a video.
pub struct Subtitle {
    pub id: i64,
    pub lang: String,
    pub lang_doc: String,
    pub author_mid: i64,
    pub url: String,
    pub url_v2: String,
    /// 0 for a track uploaded by a user, otherwise one made by a machine.
    pub subtitle_type: i64,
}

pub struct SubtitleView {
    pub id: i64,
    pub lang: Seq<char>,
    pub lang_doc: Seq<char>,
    pub author_mid: i64,
    pub url: Seq<char>,
    pub url_v2: Seq<char>,
    pub subtitle_type: i64,
}

impl View for Subtitle {
    type V = SubtitleView;

    open spec fn view(&self) -> SubtitleView {
        SubtitleView {
            id: self.id,
            lang: self.lang@,
            lang_doc: self.lang_doc@,
            author_mid: self.author_mid,
            url: self.url@,
            url_v2: self.url_v2@,
            subtitle_type: self.subtitle_type,
        }
    }
}

impl DeepView for Subtitle {
    type V = SubtitleView;

    open spec fn deep_view(&self) -> SubtitleView {
        self@
    }
}

impl Subtitle {
    /// What `from_json` reads from `json`.
    pub open spec fn spec_from_json(json: JsonValue) -> Option<SubtitleView> {
        if i64_at(json, "id"@) is Some && str_at(json, "lan"@) is Some && str_at(json, "lan_doc"@) is Some
            && i64_at(json, "author_mid"@) is Some && str_at(json, "subtitle_url"@) is Some
            && str_at(json, "subtitle_url_v2"@) is Some && i64_at(json, "type"@) is Some {
            Some(
                SubtitleView {
                    id: i64_at(json, "id"@).unwrap(),
                    lang: str_at(json, "lan"@).unwrap(),
                    lang_doc: str_at(json, "lan_doc"@).unwrap(),
                    author_mid: i64_at(json, "author_mid"@).unwrap(),
                    url: str_at(json, "subtitle_url"@).unwrap(),
                    url_v2: str_at(json, "subtitle_url_v2"@).unwrap(),
                    subtitle_type: i64_at(json, "type"@).unwrap(),
                },
            )
        } else {
            None
        }
    }

    /// Reads one entry of a player-information response's subtitle list.
    pub fn from_json(json: &JsonValue) -> (r: Option<Subtitle>)
        ensures
            r.deep_view() == Subtitle::spec_from_json(*json),
    {
        let j = Some(json);
        let id = i64_of(member_of(j, "id"))?;
        let lang = string_of(member_of(j, "lan"))?;
        let lang_doc = string_of(member_of(j, "lan_doc"))?;
        let author_mid = i64_of(member_of(j, "author_mid"))?;
        let url = string_of(member_of(j, "subtitle_url"))?;
        let url_v2 = string_of(member_of(j, "subtitle_url_v2"))?;
        let subtitle_type = i64_of(member_of(j, "type"))?;
        Some(Subtitle { id, lang, lang_doc, author_mid, url, url_v2, subtitle_type })
    }
}

impl Clone for Subtitle {
    fn clone(&self) -> (r: Self)
        ensures
            r == *self,
    {
        Subtitle {
            id: self.id,
            lang: self.lang.clone(),
            lang_doc: self.lang_doc.clone(),
            author_mid: self.author_mid,
            url: self.url.clone(),
            url_v2: self.url_v2.clone(),
            subtitle_type: self.subtitle_type,
        }
    }
}

/// The user-uploaded subtitle tracks among `items`, in order: the entries that
/// read as a subtitle and whose type is 0.
pub open spec fn user_subtitles(items: Seq<JsonValue>) -> Seq<SubtitleView>
    decreases items.len(),
{
    if items.len() == 0 {
        Seq::empty()
    } else {
        let earlier = user_subtitles(items.drop_last());
        match Subtitle::spec_from_json(items.last()) {
            Some(sub) => if sub.subtitle_type == 0 {
                earlier.push(sub)
            } else {
                earlier
            },
            None => earlier,
        }
    }
}

/// Whether an entry of a subtitle list reads as a subtitle uploaded by a
/// user (type 0).
pub open spec fn reads_as_user_subtitle(entry: JsonValue) -> bool {
    match Subtitle::spec_from_json(entry) {
        Some(sub) => sub.subtitle_type == 0,
        None => false,
    }
}

/// The entries of `items` that read as a user-uploaded subtitle, in order,
/// each as what it reads as.
pub open spec fn user_uploaded_entries(items: Seq<JsonValue>) -> Seq<SubtitleView> {
    items.filter(|e: JsonValue| reads_as_user_subtitle(e)).map_values(
        |e: JsonValue| Subtitle::spec_from_json(e).unwrap(),
    )
}

/// The subtitles kept from a list are exactly its entries that read as a
/// user-uploaded subtitle, in order, none dropped: so there are as many as
/// there are such entries.
pub proof fn lemma_user_subtitles_keep_every_user_entry(items: Seq<JsonValue>)
    ensures
        user_subtitles(items) == user_uploaded_entries(items),
        user_subtitles(items).len() == items.filter(|e: JsonValue| reads_as_user_subtitle(e)).len(),
    decreases items.len(),
{
    broadcast use Seq::lemma_filter_push, Seq::lemma_push_map_commute;

    let pred = |e: JsonValue| reads_as_user_subtitle(e);
    let read = |e: JsonValue| Subtitle::spec_from_json(e).unwrap();
    if items.len() == 0 {
        reveal_with_fuel(Seq::filter, 1);
        assert(user_uploaded_entries(items) =~= Seq::<SubtitleView>::empty());
    } else {
        let earlier = items.drop_last();
        let x = items.last();
        lemma_user_subtitles_keep_every_user_entry(earlier);
        assert(items =~= earlier.push(x));
        assert(earlier.push(x).filter(pred) == if pred(x) {
            earlier.filter(pred).push(x)
        } else {
            earlier.filter(pred)
        });
        if pred(x) {
            assert(earlier.filter(pred).push(x).map_values(read) =~= earlier.filter(pred).map_values(read).push(
                read(x),
            ));
        }
    }
}

/// The subtitles of player information read from `json` are every entry of
/// its subtitle list that reads as a user-uploaded subtitle, in order, and
/// none when there is no such entry.
pub proof fn lemma_player_info_keeps_every_user_subtitle(json: JsonValue)
    requires
        subtitle_list(json).spec_as_array() is Some,
    ensures
        PlayerInfo::spec_from_json(json) matches Some(p) ==> p.subtitles == if user_uploaded_entries(
            subtitle_list(json).spec_as_array().unwrap(),
        ).len() == 0 {
            None
        } else {
            Some(user_uploaded_entries(subtitle_list(json).spec_as_array().unwrap()))
        },
{
    lemma_user_subtitles_keep_every_user_entry(subtitle_list(json).spec_as_array().unwrap());
}

/// `json["subtitle"]["subtitles"]`, the list of subtitle tracks.
pub open spec fn subtitle_list(json: JsonValue) -> JsonValue {
    member(member(json, "subtitle"@), "subtitles"@)
}

/// What the web player reports about a video: its background music and its
/// user-uploaded subtitles.
pub struct PlayerInfo {
    pub bgm_id: String,
    pub bgm_title: String,
    pub bgm_jump_url: String,
    /// `None` when there is no user-uploaded track.
    pub subtitles: Option<Vec<Subtitle>>,
}

pub struct PlayerInfoView {
    pub bgm_id: Seq<char>,
    pub bgm_title: Seq<char>,
    pub bgm_jump_url: Seq<char>,
    pub subtitles: Option<Seq<SubtitleView>>,
}

impl View for PlayerInfo {
    type V = PlayerInfoView;

    open spec fn view(&self) -> PlayerInfoView {
        PlayerInfoView {
            bgm_id: self.bgm_id@,
            bgm_title: self.bgm_title@,
            bgm_jump_url: self.bgm_jump_url@,
            subtitles: self.subtitles.deep_view(),
        }
    }
}

impl DeepView for PlayerInfo {
    type V = PlayerInfoView;

    open spec fn deep_view(&self) -> PlayerInfoView {
        self@
    }
}

impl PlayerInfo {
    /// What `from_json` reads from `json`: the music id, the title quoted in
    /// the music's name, the music's link, and the user-uploaded subtitles.
    pub open spec fn spec_from_json(json: JsonValue) -> Option<PlayerInfoView> {
        let subs = user_subtitles(subtitle_list(json).spec_as_array().unwrap());
        let bgm = member(json, "bgm_info"@);
        if str_at(bgm, "music_id"@) is Some && str_at(bgm, "music_title"@) is Some && bracketed_title(
            str_at(bgm, "music_title"@).unwrap(),
        ) is Some && str_at(bgm, "jump_url"@) is Some {
            Some(
                PlayerInfoView {
                    bgm_id: str_at(bgm, "music_id"@).unwrap(),
                    bgm_title: bracketed_title(str_at(bgm, "music_title"@).unwrap()).unwrap(),
                    bgm_jump_url: str_at(bgm, "jump_url"@).unwrap(),
                    subtitles: if subs.len() == 0 {
                        None
                    } else {
                        Some(subs)
                    },
                },
            )
        } else {
            None
        }
    }

    /// Whether `json` holds a subtitle list, which `from_json` needs.
    pub fn has_subtitle_list(json: &JsonValue) -> (r: bool)
        ensures
            r == subtitle_list(*json).spec_as_array() is Some,
    {
        match member_of(member_of(Some(json), "subtitle"), "subtitles") {
            Some(v) => v.as_array().is_some(),
            None => false,
        }
    }

    /// Reads the `data` member of a player-information response.
    pub fn from_json(json: &JsonValue) -> (r: Option<Self>)
        requires
            subtitle_list(*json).spec_as_array() is Some,
        ensures
            r.deep_view() == PlayerInfo::spec_from_json(*json),
            r matches Some(p) ==> p@.subtitles == if user_uploaded_entries(
                subtitle_list(*json).spec_as_array().unwrap(),
            ).len() == 0 {
                None
            } else {
                Some(user_uploaded_entries(subtitle_list(*json).spec_as_array().unwrap()))
            },
    {
        proof {
            lemma_player_info_keeps_every_user_subtitle(*json);
        }
        let list = member_of(member_of(Some(json), "subtitle"), "subtitles");
        let items = match list {
            Some(v) => match v.as_array() {
                Some(a) => a,
                None => return None,
            },
            None => return None,
        };
        let ghost all = items@;
        let mut subtitles: Vec<Subtitle> = Vec::new();
        let n = items.len();
        let mut i: usize = 0;
        while i < n
            invariant
                n == all.len(),
                all == items@,
                0 <= i <= n,
                subtitles.deep_view() =~= user_subtitles(all.take(i as int)),
            decreases n - i,
        {
            assert(all.take(i + 1).drop_last() =~= all.take(i as int));
            assert(all.take(i + 1).last() == all[i as int]);
            if let Some(sub) = Subtitle::from_json(&items[i]) {
                if sub.subtitle_type == 0 {
                    subtitles.push(sub);
                }
            }
            i = i + 1;
        }
        assert(all.take(n as int) =~= all);
        let bgm = member_of(Some(json), "bgm_info");
        let bgm_id = string_of(member_of(bgm, "music_id"))?;
        let music_title = string_of(member_of(bgm, "music_title"))?;
        let bgm_title = extract_title(music_title.as_str())?;
        let bgm_jump_url = string_of(member_of(bgm, "jump_url"))?;
        let subtitles = if subtitles.len() == 0 {
            None
        } else {
            Some(subtitles)
        };
        Some(PlayerInfo { bgm_id, bgm_title, bgm_jump_url, subtitles })
    }
}

/// The quality of an audio stream.
#[derive(Clone, Copy, Debug, PartialEq, Eq, Structural)]
pub enum AudioQuality {
    Unknown,
    Low64K,
    Medium132K,
    High192K,
    Dolby,
    HiRes,
}

impl AudioQuality {
    /// The quality that a stream id stands for.
    pub open spec fn spec_from_num(quality: i64) -> AudioQuality {
        if quality == 30216 {
            AudioQuality::Low64K
        } else if quality == 30232 {
            AudioQuality::Medium132K
        } else if quality == 30280 {
            AudioQuality::High192K
        } else if quality == 30250 {
            AudioQuality::Dolby
        } else if quality == 30251 {
            AudioQuality::HiRes
        } else {
            AudioQuality::Unknown
        }
    }

    /// The quality that a stream id stands for; ids that are not known give
    /// `Unknown`.
    pub fn from_num(quality: i64) -> (r: AudioQuality)
        ensures
            r == AudioQuality::spec_from_num(quality),
    {
        match quality {
            30216 => AudioQuality::Low64K,
            30232 => AudioQuality::Medium132K,
            30280 => AudioQuality::High192K,
            30250 => AudioQuality::Dolby,
            30251 => AudioQuality::HiRes,
            _ => AudioQuality::Unknown,
        }
    }
}

/// An audio stream: its quality, its address and codecs, and when the
/// address was obtained.
pub struct BiliStream {
    pub quality: AudioQuality,
    pub base_url: String,
    pub codecs: String,
    pub get_time: Timestamp,
}

pub struct BiliStreamView {
    pub quality: AudioQuality,
    pub base_url: Seq<char>,
    pub codecs: Seq<char>,
    pub get_time: Timestamp,
}

impl View for BiliStream {
    type V = BiliStreamView;

    open spec fn view(&self) -> BiliStreamView {
        BiliStreamView {
            quality: self.quality,
            base_url: self.base_url@,
            codecs: self.codecs@,
            get_time: self.get_time,
        }
    }
}

impl DeepView for BiliStream {
    type V = BiliStreamView;

    open spec fn deep_view(&self) -> BiliStreamView {
        self@
    }
}

/// Whether an address obtained at `obtained` is still usable at `now`: it was
/// obtained no later than `now`, and less than `STREAM_URL_LIFETIME_SECS`
/// seconds before.
pub open spec fn usable_at(obtained: Timestamp, now: Timestamp) -> bool {
    &&& obtained.since_epoch_nanos <= now.since_epoch_nanos
    &&& now.since_epoch_nanos - obtained.since_epoch_nanos < STREAM_URL_LIFETIME_SECS * NANOS_PER_SEC
}

impl BiliStreamView {
    /// The address, when it is still usable at `now`.
    pub open spec fn url_at(self, now: Timestamp) -> Option<Seq<char>> {
        if usable_at(self.get_time, now) {
            Some(self.base_url)
        } else {
            None
        }
    }
}

impl BiliStream {
    /// What `from_json_at` reads from `json`, stamped with `now`.
    pub open spec fn spec_from_json(json: JsonValue, now: Timestamp) -> Option<BiliStreamView> {
        if i64_at(json, "id"@) is Some && str_at(json, "base_url"@) is Some && str_at(json, "codecs"@) is Some {
            Some(
                BiliStreamView {
                    quality: AudioQuality::spec_from_num(i64_at(json, "id"@).unwrap()),
                    base_url: str_at(json, "base_url"@).unwrap(),
                    codecs: str_at(json, "codecs"@).unwrap(),
                    get_time: now,
                },
            )
        } else {
            None
        }
    }

    /// Reads one audio entry of a stream response, obtained at `now`.
    pub fn from_json_at(json: &JsonValue, now: Timestamp) -> (r: Option<Self>)
        ensures
            r.deep_view() == BiliStream::spec_from_json(*json, now),
    {
        let j = Some(json);
        let id = i64_of(member_of(j, "id"))?;
        let quality = AudioQuality::from_num(id);
        let base_url = string_of(member_of(j, "base_url"))?;
        let codecs = string_of(member_of(j, "codecs"))?;
        Some(BiliStream { quality, base_url, codecs, get_time: now })
    }

    /// Reads one audio entry of a stream response, and stamps it with the
    /// current time: what `from_json_at` gives at the instant the clock reads.
    pub fn from_json(json: &JsonValue) -> (r: Option<Self>)
        ensures
            exists|now: Timestamp| r.deep_view() == #[trigger] BiliStream::spec_from_json(*json, now),
    {
        let now = Timestamp::now();
        let r = BiliStream::from_json_at(json, now);
        assert(r.deep_view() == BiliStream::spec_from_json(*json, now));
        r
    }

    /// Whether the address was obtained no later than `now`.
    pub fn obtained_by(&self, now: Timestamp) -> (r: bool)
        ensures
            r == (self.get_time.since_epoch_nanos <= now.since_epoch_nanos),
    {
        self.get_time.since_epoch_nanos <= now.since_epoch_nanos
    }

    /// The address, when it is still usable at `now`: obtained less than
    /// `STREAM_URL_LIFETIME_SECS` seconds before.  An instant before the
    /// address was obtained has no age, and is left out.
    pub fn url_at(&self, now: Timestamp) -> (r: Option<String>)
        requires
            self.get_time.since_epoch_nanos <= now.since_epoch_nanos,
        ensures
            opt_str_view(r) == self@.url_at(now),
    {
        let lifetime: i128 = (STREAM_URL_LIFETIME_SECS as i128) * (NANOS_PER_SEC as i128);
        match now.since_epoch_nanos.checked_sub(self.get_time.since_epoch_nanos) {
            Some(age) => if 0 <= age && age < lifetime {
                Some(self.base_url.clone())
            } else {
                None
            },
            None => None,
        }
    }

    /// The address, while it is still usable: what `url_at` gives at the
    /// instant the clock reads.  Which instant that is depends on the clock.
    /// When the clock reads earlier than the address was obtained (it was
    /// set back, or the stamp lies ahead), the address has no age: it is
    /// treated as expired and `None` comes back.
    pub fn get_stream_url(&self) -> (r: Option<String>)
        ensures
            exists|now: Timestamp|
                {
                    &&& opt_str_view(r) == #[trigger] self@.url_at(now)
                    &&& now.since_epoch_nanos < self.get_time.since_epoch_nanos ==> r is None
                },
            r matches Some(url) ==> url@ == self.base_url@,
    {
        let now = Timestamp::now();
        if self.obtained_by(now) {
            let r = self.url_at(now);
            assert(opt_str_view(r) == self@.url_at(now));
            r
        } else {
            assert(self@.url_at(now) is None);
            None
        }
    }
}

impl Clone for BiliStream {
    fn clone(&self) -> (r: Self)
        ensures
            r == *self,
    {
        BiliStream {
            quality: self.quality,
            base_url: self.base_url.clone(),
            codecs: self.codecs.clone(),
            get_time: self.get_time,
        }
    }
}

/// An address usable at some instant is usable at every instant between the
/// time it was obtained and that one.
pub proof fn lemma_url_at_usable_earlier(stream: BiliStreamView, now: Timestamp, earlier: Timestamp)
    requires
        stream.url_at(now) is Some,
        stream.get_time.since_epoch_nanos <= earlier.since_epoch_nanos <= now.since_epoch_nanos,
    ensures
        stream.url_at(earlier) == stream.url_at(now),
{
}

/// Song metadata read from a video description.
pub struct Meta {
    pub title: String,
    pub cover_url: String,
    pub author: String,
    pub lyrics_path: String,
}

pub struct MetaView {
    pub title: Seq<char>,
    pub cover_url: Seq<char>,
    pub author: Seq<char>,
    pub lyrics_path: Seq<char>,
}

impl View for Meta {
    type V = MetaView;

    open spec fn view(&self) -> MetaView {
        MetaView {
            title: self.title@,
            cover_url: self.cover_url@,
            author: self.author@,
            lyrics_path: self.lyrics_path@,
        }
    }
}

impl DeepView for Meta {
    type V = MetaView;

    open spec fn deep_view(&self) -> MetaView {
        self@
    }
}

impl Meta {
    /// What `from_json` reads from `json`: title and author both from the
    /// `title` member, the cover from `pic`, and no lyrics path.
    pub open spec fn spec_from_json(json: JsonValue) -> Option<MetaView> {
        if str_at(json, "title"@) is Some && str_at(json, "pic"@) is Some {
            Some(
                MetaView {
                    title: str_at(json, "title"@).unwrap(),
                    cover_url: str_at(json, "pic"@).unwrap(),
                    author: str_at(json, "title"@).unwrap(),
                    lyrics_path: Seq::empty(),
                },
            )
        } else {
            None
        }
    }

    /// Reads song metadata from a video description.
    pub fn from_json(json: &JsonValue) -> (r: Option<Self>)
        ensures
            r.deep_view() == Meta::spec_from_json(*json),
    {
        let j = Some(json);
        let title = string_of(member_of(j, "title"))?;
        let cover_url = string_of(member_of(j, "pic"))?;
        let author = string_of(member_of(j, "title"))?;
        Some(Meta { title, cover_url, author, lyrics_path: String::new() })
    }
}

impl Clone for Meta {
    fn clone(&self) -> (r: Self)
        ensures
            r == *self,
    {
        Meta {
            title: self.title.clone(),
            cover_url: self.cover_url.clone(),
            author: self.author.clone(),
            lyrics_path: self.lyrics_path.clone(),
        }
    }
}

/// The uploader of a video.
pub struct Upper {
    pub mid: i64,
    pub name: String,
    pub avatar: String,
}

pub struct UpperView {
    pub mid: i64,
    pub name: Seq<char>,
    pub avatar: Seq<char>,
}

impl View for Upper {
    type V = UpperView;

    open spec fn view(&self) -> UpperView {
        UpperView { mid: self.mid, name: self.name@, avatar: self.avatar@ }
    }
}

impl DeepView for Upper {
    type V = UpperView;

    open spec fn deep_view(&self) -> UpperView {
        self@
    }
}

impl Upper {
    /// What `from_json` reads from `json`; the avatar is the `face` member.
    pub open spec fn spec_from_json(json: JsonValue) -> Option<UpperView> {
        if i64_at(json, "mid"@) is Some && str_at(json, "name"@) is Some && str_at(json, "face"@) is Some {
            Some(
                UpperView {
                    mid: i64_at(json, "mid"@).unwrap(),
                    name: str_at(json, "name"@).unwrap(),
                    avatar: str_at(json, "face"@).unwrap(),
                },
            )
        } else {
            None
        }
    }

    /// Reads the `owner` member of a video description.
    pub fn from_json(json: &JsonValue) -> (r: Option<Self>)
        ensures
            r.deep_view() == Upper::spec_from_json(*json),
    {
        let j = Some(json);
        let mid = i64_of(member_of(j, "mid"))?;
        let name = string_of(member_of(j, "name"))?;
        let avatar = string_of(member_of(j, "face"))?;
        Some(Upper { mid, name, avatar })
    }
}

impl Clone for Upper {
    fn clone(&self) -> (r: Self)
        ensures
            r == *self,
    {
        Upper { mid: self.mid, name: self.name.clone(), avatar: self.avatar.clone() }
    }
}

/// One part (page) of a video.
pub struct VideoPart {
    pub cid: i64,
    pub page: i64,
    pub title: String,
    pub duration: i64,
}

pub struct VideoPartView {
    pub cid: i64,
    pub page: i64,
    pub title: Seq<char>,
    pub duration: i64,
}

impl View for VideoPart {
    type V = VideoPartView;

    open spec fn view(&self) -> VideoPartView {
        VideoPartView { cid: self.cid, page: self.page, title: self.title@, duration: self.duration }
    }
}

impl DeepView for VideoPart {
    type V = VideoPartView;

    open spec fn deep_view(&self) -> VideoPartView {
        self@
    }
}

/// The parts among `items` that read as a part, in order.
pub open spec fn parts_of(items: Seq<JsonValue>) -> Seq<VideoPartView>
    decreases items.len(),
{
    if items.len() == 0 {
        Seq::empty()
    } else {
        let earlier = parts_of(items.drop_last());
        match VideoPart::spec_from_json(items.last()) {
            Some(part) => earlier.push(part),
            None => earlier,
        }
    }
}

/// Whether an entry of a `pages` list reads as a part.
pub open spec fn reads_as_part(entry: JsonValue) -> bool {
    VideoPart::spec_from_json(entry) is Some
}

/// The entries of `items` that read as a part, in order, each as the part it
/// reads as.
pub open spec fn readable_parts(items: Seq<JsonValue>) -> Seq<VideoPartView> {
    items.filter(|e: JsonValue| reads_as_part(e)).map_values(|e: JsonValue| VideoPart::spec_from_json(e).unwrap())
}

/// The parts read from a list are exactly its entries that read as a part,
/// in order, none dropped.
pub proof fn lemma_parts_of_keeps_every_part(items: Seq<JsonValue>)
    ensures
        parts_of(items) == readable_parts(items),
        parts_of(items).len() == items.filter(|e: JsonValue| reads_as_part(e)).len(),
    decreases items.len(),
{
    broadcast use Seq::lemma_filter_push, Seq::lemma_push_map_commute;

    let pred = |e: JsonValue| reads_as_part(e);
    let read = |e: JsonValue| VideoPart::spec_from_json(e).unwrap();
    if items.len() == 0 {
        reveal_with_fuel(Seq::filter, 1);
        assert(readable_parts(items) =~= Seq::<VideoPartView>::empty());
    } else {
        let earlier = items.drop_last();
        let x = items.last();
        lemma_parts_of_keeps_every_part(earlier);
        assert(items =~= earlier.push(x));
        assert(earlier.push(x).filter(pred) == if pred(x) {
            earlier.filter(pred).push(x)
        } else {
            earlier.filter(pred)
        });
        if pred(x) {
            assert(earlier.filter(pred).push(x).map_values(read) =~= earlier.filter(pred).map_values(read).push(
                read(x),
            ));
        }
    }
}

impl VideoPart {
    /// What `from_json` reads from `json`; the title is the `part` member.
    pub open spec fn spec_from_json(json: JsonValue) -> Option<VideoPartView> {
        if i64_at(json, "cid"@) is Some && i64_at(json, "page"@) is Some && str_at(json, "part"@) is Some
            && i64_at(json, "duration"@) is Some {
            Some(
                VideoPartView {
                    cid: i64_at(json, "cid"@).unwrap(),
                    page: i64_at(json, "page"@).unwrap(),
                    title: str_at(json, "part"@).unwrap(),
                    duration: i64_at(json, "duration"@).unwrap(),
                },
            )
        } else {
            None
        }
    }

    /// What `from_json_array` reads from `json`: nothing unless it is an array.
    pub open spec fn spec_from_json_array(json: JsonValue) -> Seq<VideoPartView> {
        match json.spec_as_array() {
            Some(items) => parts_of(items),
            None => Seq::empty(),
        }
    }

    /// Reads one entry of a video description's `pages` list.
    pub fn from_json(json: &JsonValue) -> (r: Option<Self>)
        ensures
            r.deep_view() == VideoPart::spec_from_json(*json),
    {
        let j = Some(json);
        let cid = i64_of(member_of(j, "cid"))?;
        let page = i64_of(member_of(j, "page"))?;
        let title = string_of(member_of(j, "part"))?;
        let duration = i64_of(member_of(j, "duration"))?;
        Some(VideoPart { cid, page, title, duration })
    }

    /// Reads a video description's `pages` list, skipping entries that do
    /// not read as a part.
    pub fn from_json_array(json: Option<&JsonValue>) -> (r: Vec<Self>)
        ensures
            r.deep_view() == VideoPart::spec_from_json_array(or_null(json)),
            r.deep_view() == match or_null(json).spec_as_array() {
                Some(items) => readable_parts(items),
                None => Seq::empty(),
            },
    {
        proof {
            if let Some(items) = or_null(json).spec_as_array() {
                lemma_parts_of_keeps_every_part(items);
            }
        }
        let items = match json {
            Some(v) => match v.as_array() {
                Some(a) => a,
                None => return Vec::new(),
            },
            None => return Vec::new(),
        };
        let ghost all = items@;
        let mut parts: Vec<VideoPart> = Vec::new();
        let n = items.len();
        let mut i: usize = 0;
        while i < n
            invariant
                n == all.len(),
                all == items@,
                0 <= i <= n,
                parts.deep_view() =~= parts_of(all.take(i as int)),
            decreases n - i,
        {
            assert(all.take(i + 1).drop_last() =~= all.take(i as int));
            assert(all.take(i + 1).last() == all[i as int]);
            if let Some(part) = VideoPart::from_json(&items[i]) {
                parts.push(part);
            }
            i = i + 1;
        }
        assert(all.take(n as int) =~= all);
        parts
    }
}

impl Clone for VideoPart {
    fn clone(&self) -> (r: Self)
        ensures
            r == *self,
    {
        VideoPart { cid: self.cid, page: self.page, title: self.title.clone(), duration: self.duration }
    }
}


impl Clone for PlayerInfo {
    fn clone(&self) -> (r: Self)
        ensures
            r@ == self@,
    {
        let subtitles = match &self.subtitles {
            Some(list) => {
                let copy = list.clone();
                assert forall|i: int| 0 <= i < copy@.len() implies copy@[i] == list@[i] by {
                    assert(cloned::<Subtitle>(list[i], copy[i]));
                }
                assert(copy@ =~= list@);
                Some(copy)
            },
            None => None,
        };
        PlayerInfo {
            bgm_id: self.bgm_id.clone(),
            bgm_title: self.bgm_title.clone(),
            bgm_jump_url: self.bgm_jump_url.clone(),
            subtitles,
        }
    }
}

/// A video as the downloader knows it: its description and uploader, its
/// parts, and what has been fetched about it since.
pub struct Video {
    pub info: BiliInfo,
    pub player_info: Option<PlayerInfo>,
    pub stream: Option<BiliStream>,
    pub flac_stream: Option<BiliStream>,
    pub meta: Option<Meta>,
    pub upper: Upper,
    pub parts: Vec<VideoPart>,
}

pub struct VideoView {
    pub info: BiliInfoView,
    pub player_info: Option<PlayerInfoView>,
    pub stream: Option<BiliStreamView>,
    pub flac_stream: Option<BiliStreamView>,
    pub meta: Option<MetaView>,
    pub upper: UpperView,
    pub parts: Seq<VideoPartView>,
}

impl View for Video {
    type V = VideoView;

    open spec fn view(&self) -> VideoView {
        VideoView {
            info: self.info@,
            player_info: self.player_info.deep_view(),
            stream: self.stream.deep_view(),
            flac_stream: self.flac_stream.deep_view(),
            meta: self.meta.deep_view(),
            upper: self.upper@,
            parts: self.parts.deep_view(),
        }
    }
}

impl DeepView for Video {
    type V = VideoView;

    open spec fn deep_view(&self) -> VideoView {
        self@
    }
}

/// A copy of an optional stream.
fn clone_stream(s: &Option<BiliStream>) -> (r: Option<BiliStream>)
    ensures
        r == *s,
{
    match s {
        Some(s) => Some(s.clone()),
        None => None,
    }
}

impl Clone for Video {
    fn clone(&self) -> (r: Self)
        ensures
            r@ == self@,
            r.stream == self.stream,
            r.flac_stream == self.flac_stream,
    {
        let player_info = match &self.player_info {
            Some(p) => Some(p.clone()),
            None => None,
        };
        let meta = match &self.meta {
            Some(m) => Some(m.clone()),
            None => None,
        };
        let parts = self.parts.clone();
        assert forall|i: int| 0 <= i < parts@.len() implies parts@[i] == self.parts@[i] by {
            assert(cloned::<VideoPart>(self.parts[i], parts[i]));
        }
        assert(parts@ =~= self.parts@);
        Video {
            info: self.info.clone(),
            player_info,
            stream: clone_stream(&self.stream),
            flac_stream: clone_stream(&self.flac_stream),
            meta,
            upper: self.upper.clone(),
            parts,
        }
    }
}

/// The subtitles kept from a list are user-uploaded ones read from its
/// entries: each has type 0, and there are no more of them than entries.
pub proof fn lemma_user_subtitles_are_user_uploaded(items: Seq<JsonValue>)
    ensures
        user_subtitles(items).len() <= items.len(),
        forall|i: int|
            0 <= i < user_subtitles(items).len() ==> (#[trigger] user_subtitles(items)[i]).subtitle_type
                == 0,
    decreases items.len(),
{
    if items.len() > 0 {
        lemma_user_subtitles_are_user_uploaded(items.drop_last());
    }
}

/// Reading a list of parts keeps at most one part per entry, and every entry
/// that reads as a part is kept: a list whose entries all read gives one part
/// per entry, in order.
pub proof fn lemma_parts_of_complete_list(items: Seq<JsonValue>)
    ensures
        parts_of(items).len() <= items.len(),
        (forall|i: int| 0 <= i < items.len() ==> (#[trigger] VideoPart::spec_from_json(items[i])) is Some)
            ==> {
            &&& parts_of(items).len() == items.len()
            &&& forall|i: int|
                0 <= i < items.len() ==> Some(#[trigger] parts_of(items)[i])
                    == VideoPart::spec_from_json(items[i])
        },
    decreases items.len(),
{
    if items.len() > 0 {
        let earlier = items.drop_last();
        lemma_parts_of_complete_list(earlier);
        if forall|i: int| 0 <= i < items.len() ==> (#[trigger] VideoPart::spec_from_json(items[i])) is Some {
            assert forall|i: int| 0 <= i < earlier.len() implies (#[trigger] VideoPart::spec_from_json(
                earlier[i],
            )) is Some by {
                assert(earlier[i] == items[i]);
            }
            assert(VideoPart::spec_from_json(items[items.len() - 1]) is Some);
        }
    }
}

} // verus!
