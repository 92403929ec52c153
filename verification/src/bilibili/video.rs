//! Reading the answers of the video endpoints, and what the downloader does
//! with a video between requests.

use crate::bilibili::modules::{
    lemma_parts_of_keeps_every_part, readable_parts, subtitle_list, BiliInfo, BiliStream, BiliStreamView,
    PlayerInfo, Upper, Video, VideoPart, VideoView, STREAM_URL_LIFETIME_SECS,
};
use crate::bilibili::utils::{decimal, decimal_string};
use crate::clock::{Timestamp, NANOS_PER_SEC};
use crate::errors::{result_view, BiliError, BiliErrorView};
use crate::json::{element, element_of, i64_at, i64_of, member, member_of, str_at, string_of, JsonValue};
use vstd::prelude::*;

verus! {

/// The code an answer reports: `code` as an integer, and 1 when it is not one.
pub open spec fn response_code(json: JsonValue) -> i64 {
    match i64_at(json, "code"@) {
        Some(c) => c,
        None => 1,
    }
}

/// Whether an answer reports success.
pub open spec fn response_ok(json: JsonValue) -> bool {
    response_code(json) == 0
}

/// Whether a failure, if the answer reports one, comes with a message that
/// can be shown: reading the answer needs it.
pub open spec fn failure_readable(json: JsonValue) -> bool {
    response_ok(json) || str_at(json, "message"@) is Some
}

/// What checking the code of an answer gives.
pub open spec fn spec_check_response(json: JsonValue) -> Result<(), BiliErrorView> {
    if response_ok(json) {
        Ok(())
    } else {
        Err(BiliErrorView::RequestFailed(str_at(json, "message"@).unwrap()))
    }
}

/// Whether an answer's failure, if it reports one, comes with a message.
pub fn is_failure_readable(json: &JsonValue) -> (r: bool)
    ensures
        r == failure_readable(*json),
{
    let code = match i64_of(member_of(Some(json), "code")) {
        Some(c) => c,
        None => 1,
    };
    code == 0 || string_of(member_of(Some(json), "message")).is_some()
}

/// Checks the code of an answer: a non-zero code is a failed request, with
/// the answer's message.
pub fn check_response(json: &JsonValue) -> (r: Result<(), BiliError>)
    requires
        failure_readable(*json),
    ensures
        match (r, spec_check_response(*json)) {
            (Ok(()), Ok(())) => true,
            (Err(e), Err(v)) => e@ == v,
            _ => false,
        },
{
    let code = match i64_of(member_of(Some(json), "code")) {
        Some(c) => c,
        None => 1,
    };
    if code != 0 {
        match string_of(member_of(Some(json), "message")) {
            Some(message) => Err(BiliError::RequestFailed(message)),
            None => Err(BiliError::RequestFailed(String::new())),
        }
    } else {
        Ok(())
    }
}

/// `json["data"]`.
pub open spec fn data_of(json: JsonValue) -> JsonValue {
    member(json, "data"@)
}

/// What a video-details answer describes.
pub open spec fn spec_video_from_response(json: JsonValue) -> Result<VideoView, BiliErrorView> {
    if !response_ok(json) {
        Err(BiliErrorView::RequestFailed(str_at(json, "message"@).unwrap()))
    } else {
        let data = data_of(json);
        match (BiliInfo::spec_from_json(data), Upper::spec_from_json(member(data, "owner"@))) {
            (Some(info), Some(upper)) => Ok(
                VideoView {
                    info,
                    player_info: None,
                    stream: None,
                    flac_stream: None,
                    meta: None,
                    upper,
                    parts: VideoPart::spec_from_json_array(member(data, "pages"@)),
                },
            ),
            _ => Err(BiliErrorView::Deserialization),
        }
    }
}

/// Reads a video-details answer: the description in `data`, the uploader in
/// `data.owner` and the parts in `data.pages`; nothing fetched yet.
pub fn video_from_response(json: &JsonValue) -> (r: Result<Video, BiliError>)
    requires
        failure_readable(*json),
    ensures
        result_view(r) == spec_video_from_response(*json),
        r matches Ok(v) ==> v.stream is None && v.flac_stream is None,
        r matches Ok(v) ==> v@.parts == match member(data_of(*json), "pages"@).spec_as_array() {
            Some(items) => readable_parts(items),
            None => Seq::empty(),
        },
{
    proof {
        lemma_video_parts_are_every_readable_page(*json);
    }
    match check_response(json) {
        Ok(()) => {},
        Err(e) => return Err(e),
    }
    let data = member_of(Some(json), "data");
    let info = match data {
        Some(d) => BiliInfo::from_json(d),
        None => BiliInfo::from_json(&JsonValue::Null),
    };
    let info = match info {
        Some(i) => i,
        None => return Err(BiliError::Deserialization),
    };
    let upper = match member_of(data, "owner") {
        Some(o) => Upper::from_json(o),
        None => Upper::from_json(&JsonValue::Null),
    };
    let upper = match upper {
        Some(u) => u,
        None => return Err(BiliError::Deserialization),
    };
    let parts = VideoPart::from_json_array(member_of(data, "pages"));
    Ok(
        Video {
            info,
            player_info: None,
            stream: None,
            flac_stream: None,
            meta: None,
            upper,
            parts,
        },
    )
}

/// A video read from a successful details answer has as its parts every
/// entry of `data.pages` that reads as a part, in order, none dropped (none
/// at all when `data.pages` is not a list).
pub proof fn lemma_video_parts_are_every_readable_page(json: JsonValue)
    ensures
        spec_video_from_response(json) matches Ok(v) ==> v.parts == match member(
            data_of(json),
            "pages"@,
        ).spec_as_array() {
            Some(items) => readable_parts(items),
            None => Seq::empty(),
        },
{
    if let Some(items) = member(data_of(json), "pages"@).spec_as_array() {
        lemma_parts_of_keeps_every_part(items);
    }
}

/// Whether a player-information answer holds the subtitle list that reading
/// it needs.
pub open spec fn player_response_readable(json: JsonValue) -> bool {
    subtitle_list(data_of(json)).spec_as_array() is Some
}

/// What a player-information answer describes.
pub open spec fn spec_player_info_from_response(json: JsonValue) -> Result<
    crate::bilibili::modules::PlayerInfoView,
    BiliErrorView,
> {
    match PlayerInfo::spec_from_json(data_of(json)) {
        Some(p) => Ok(p),
        None => Err(BiliErrorView::Deserialization),
    }
}

/// Whether a player-information answer holds a subtitle list.
pub fn is_player_response_readable(json: &JsonValue) -> (r: bool)
    ensures
        r == player_response_readable(*json),
{
    match member_of(Some(json), "data") {
        Some(d) => PlayerInfo::has_subtitle_list(d),
        None => PlayerInfo::has_subtitle_list(&JsonValue::Null),
    }
}

/// Reads a player-information answer from its `data`.
pub fn player_info_from_response(json: &JsonValue) -> (r: Result<PlayerInfo, BiliError>)
    requires
        player_response_readable(*json),
    ensures
        result_view(r) == spec_player_info_from_response(*json),
{
    let info = match member_of(Some(json), "data") {
        Some(d) => PlayerInfo::from_json(d),
        None => PlayerInfo::from_json(&JsonValue::Null),
    };
    match info {
        Some(p) => Ok(p),
        None => Err(BiliError::Deserialization),
    }
}

/// `json["data"]["dash"]["audio"]`, the audio streams on offer.
pub open spec fn audio_list(json: JsonValue) -> JsonValue {
    member(member(data_of(json), "dash"@), "audio"@)
}

/// `json["data"]["dash"]["flac"]["audio"]`, the lossless stream.
pub open spec fn flac_entry(json: JsonValue) -> JsonValue {
    member(member(member(data_of(json), "dash"@), "flac"@), "audio"@)
}

/// The id of an audio entry.
pub open spec fn entry_id(entry: JsonValue) -> i64 {
    i64_at(entry, "id"@).unwrap()
}

/// Whether every entry has an integer id.
pub open spec fn all_ids_readable(items: Seq<JsonValue>) -> bool {
    forall|i: int| 0 <= i < items.len() ==> (#[trigger] i64_at(items[i], "id"@)) is Some
}

/// The position and id of the best entry among `items`: scanning in order,
/// from position 0 and id 0, an entry is taken when its id is greater than
/// the best so far.
pub open spec fn best_entry(items: Seq<JsonValue>) -> (int, i64)
    decreases items.len(),
{
    if items.len() == 0 {
        (0, 0)
    } else {
        let earlier = best_entry(items.drop_last());
        if entry_id(items.last()) > earlier.1 {
            (items.len() - 1, entry_id(items.last()))
        } else {
            earlier
        }
    }
}

/// Whether a stream answer can be read: a failure comes with a message, and
/// each audio entry on offer has an integer id.
pub open spec fn stream_response_readable(json: JsonValue) -> bool {
    &&& failure_readable(json)
    &&& response_ok(json) ==> match audio_list(json).spec_as_array() {
        Some(items) => all_ids_readable(items),
        None => true,
    }
}

/// The position of the best audio entry of a stream answer.
pub open spec fn best_audio_index(json: JsonValue) -> int {
    match audio_list(json).spec_as_array() {
        Some(items) => best_entry(items).0,
        None => 0,
    }
}

/// What a stream answer offers, obtained at `now`: the best audio stream and
/// the lossless one.
pub open spec fn spec_streams_from_response(json: JsonValue, now: Timestamp) -> Result<
    (Option<BiliStreamView>, Option<BiliStreamView>),
    BiliErrorView,
> {
    if !response_ok(json) {
        Err(BiliErrorView::RequestFailed(str_at(json, "message"@).unwrap()))
    } else {
        Ok(
            (
                BiliStream::spec_from_json(element(audio_list(json), best_audio_index(json)), now),
                BiliStream::spec_from_json(flac_entry(json), now),
            ),
        )
    }
}

/// Whether a stream answer can be read.
pub fn is_stream_response_readable(json: &JsonValue) -> (r: bool)
    ensures
        r == stream_response_readable(*json),
{
    if !is_failure_readable(json) {
        return false;
    }
    let code = match i64_of(member_of(Some(json), "code")) {
        Some(c) => c,
        None => 1,
    };
    if code != 0 {
        return true;
    }
    let audio = member_of(member_of(member_of(Some(json), "data"), "dash"), "audio");
    let items = match audio {
        Some(v) => match v.as_array() {
            Some(a) => a,
            None => return true,
        },
        None => return true,
    };
    let n = items.len();
    let mut i: usize = 0;
    while i < n
        invariant
            n == items@.len(),
            0 <= i <= n,
            audio_list(*json).spec_as_array() == Some(items@),
            response_ok(*json),
            failure_readable(*json),
            forall|k: int| 0 <= k < i ==> (#[trigger] i64_at(items@[k], "id"@)) is Some,
        decreases n - i,
    {
        if i64_of(member_of(Some(&items[i]), "id")).is_none() {
            assert(!all_ids_readable(items@)) by {
                assert(i64_at(items@[i as int], "id"@) is None);
            }
            return false;
        }
        i = i + 1;
    }
    true
}

/// Reads a stream answer: among the audio streams on offer, the one with the
/// greatest id (the first of them, when several share it), and the lossless
/// stream when there is one, both stamped as obtained at `now`.
pub fn streams_from_response(json: &JsonValue, now: Timestamp) -> (r: Result<
    (Option<BiliStream>, Option<BiliStream>),
    BiliError,
>)
    requires
        stream_response_readable(*json),
    ensures
        result_view(r) == spec_streams_from_response(*json, now),
        response_ok(*json) ==> forall|k: int|
            #[trigger] is_best_audio_position(*json, k) ==> result_view(r) == Ok::<_, BiliErrorView>(
                (
                    BiliStream::spec_from_json(element(audio_list(*json), k), now),
                    BiliStream::spec_from_json(flac_entry(*json), now),
                ),
            ),
{
    match check_response(json) {
        Ok(()) => {},
        Err(e) => return Err(e),
    }
    let audio = member_of(member_of(member_of(Some(json), "data"), "dash"), "audio");
    let mut max_index: usize = 0;
    let mut max_quality: i64 = 0;
    if let Some(a) = audio {
        if let Some(items) = a.as_array() {
            let ghost all = items@;
            let n = items.len();
            let mut i: usize = 0;
            assert(all.take(0) =~= Seq::<JsonValue>::empty());
            while i < n
                invariant
                    n == all.len(),
                    all == items@,
                    all_ids_readable(all),
                    0 <= i <= n,
                    (max_index as int, max_quality) == best_entry(all.take(i as int)),
                decreases n - i,
            {
                assert(all.take(i + 1).drop_last() =~= all.take(i as int));
                assert(all.take(i + 1).last() == all[i as int]);
                assert(i64_at(all[i as int], "id"@) is Some);
                let id = match i64_of(member_of(Some(&items[i]), "id")) {
                    Some(id) => id,
                    None => 0,
                };
                if id > max_quality {
                    max_quality = id;
                    max_index = i;
                }
                i = i + 1;
            }
            assert(all.take(n as int) =~= all);
        }
    }
    let stream = match element_of(audio, max_index) {
        Some(e) => BiliStream::from_json_at(e, now),
        None => BiliStream::from_json_at(&JsonValue::Null, now),
    };
    let flac = match member_of(member_of(member_of(member_of(Some(json), "data"), "dash"), "flac"), "audio") {
        Some(e) => BiliStream::from_json_at(e, now),
        None => BiliStream::from_json_at(&JsonValue::Null, now),
    };
    let r = Ok((stream, flac));
    proof {
        assert forall|k: int| #[trigger] is_best_audio_position(*json, k) implies result_view(r)
            == Ok::<_, BiliErrorView>(
            (
                BiliStream::spec_from_json(element(audio_list(*json), k), now),
                BiliStream::spec_from_json(flac_entry(*json), now),
            ),
        ) by {
            lemma_streams_take_first_greatest(*json, now, k);
        }
    }
    r
}

/// The entry that a stream answer's reading takes is the first of those with
/// the greatest id; when no entry has a positive id, it is the first entry.
pub proof fn lemma_best_entry_is_first_greatest(items: Seq<JsonValue>)
    ensures
        best_entry(items).1 >= 0,
        best_entry(items).1 == 0 ==> best_entry(items).0 == 0,
        best_entry(items).1 > 0 ==> {
            &&& 0 <= best_entry(items).0 < items.len()
            &&& entry_id(items[best_entry(items).0]) == best_entry(items).1
        },
        forall|j: int| 0 <= j < items.len() ==> #[trigger] entry_id(items[j]) <= best_entry(items).1,
        forall|j: int|
            0 <= j < best_entry(items).0 ==> #[trigger] entry_id(items[j]) < best_entry(items).1,
    decreases items.len(),
{
    if items.len() > 0 {
        let earlier = items.drop_last();
        lemma_best_entry_is_first_greatest(earlier);
        assert forall|j: int| 0 <= j < earlier.len() implies earlier[j] == items[j] by {}
    }
}

/// Whether position `k` of `items` holds the best audio entry: when some
/// entry has a positive id, `k` is an entry whose id no entry exceeds and
/// which every entry before it falls short of (the first of the greatest);
/// otherwise `k` is 0.
pub open spec fn is_first_greatest(items: Seq<JsonValue>, k: int) -> bool {
    if exists|j: int| 0 <= j < items.len() && #[trigger] entry_id(items[j]) > 0 {
        &&& 0 <= k < items.len()
        &&& forall|j: int| 0 <= j < items.len() ==> #[trigger] entry_id(items[j]) <= entry_id(items[k])
        &&& forall|j: int| 0 <= j < k ==> #[trigger] entry_id(items[j]) < entry_id(items[k])
    } else {
        k == 0
    }
}

/// Whether position `k` of a stream answer's audio list holds its best
/// entry; when the list is not an array, position 0 is taken.
pub open spec fn is_best_audio_position(json: JsonValue, k: int) -> bool {
    match audio_list(json).spec_as_array() {
        Some(items) => is_first_greatest(items, k),
        None => k == 0,
    }
}

/// Reading a successful stream answer takes, as the audio stream, the entry
/// at the best position of the audio list (the first entry with the
/// greatest id), and as the lossless stream `data.dash.flac.audio`, both
/// stamped with the instant given.
pub proof fn lemma_streams_take_first_greatest(json: JsonValue, now: Timestamp, k: int)
    requires
        stream_response_readable(json),
        response_ok(json),
        is_best_audio_position(json, k),
    ensures
        spec_streams_from_response(json, now) == Ok::<_, BiliErrorView>(
            (
                BiliStream::spec_from_json(element(audio_list(json), k), now),
                BiliStream::spec_from_json(flac_entry(json), now),
            ),
        ),
{
    if let Some(items) = audio_list(json).spec_as_array() {
        lemma_best_entry_is_first_greatest(items);
        let b = best_entry(items);
        if exists|j: int| 0 <= j < items.len() && #[trigger] entry_id(items[j]) > 0 {
            let j0 = choose|j: int| 0 <= j < items.len() && #[trigger] entry_id(items[j]) > 0;
            assert(entry_id(items[j0]) <= b.1);
            assert(0 <= b.0 < items.len());
            assert(entry_id(items[b.0]) <= entry_id(items[k]));
            assert(entry_id(items[k]) <= entry_id(items[b.0]));
            if k < b.0 {
                assert(entry_id(items[k]) < b.1);
            } else if b.0 < k {
                assert(entry_id(items[b.0]) < entry_id(items[k]));
            }
            assert(k == b.0);
        } else {
            if b.1 > 0 {
                assert(entry_id(items[b.0]) > 0);
            }
            assert(b.0 == 0);
        }
        assert(best_audio_index(json) == k);
    }
}

impl Video {
    /// This video with the streams of a stream answer.
    pub fn with_streams(&self, stream: Option<BiliStream>, flac_stream: Option<BiliStream>) -> (r: Video)
        ensures
            r@ == (VideoView { stream: stream.deep_view(), flac_stream: flac_stream.deep_view(), ..self@ }),
            r.stream == stream,
            r.flac_stream == flac_stream,
    {
        let v = self.clone();
        Video { stream, flac_stream, ..v }
    }

    /// This video with the player information of a player-information answer.
    pub fn with_player_info(&self, player_info: PlayerInfo) -> (r: Video)
        ensures
            r@ == (VideoView { player_info: Some(player_info@), ..self@ }),
            r.stream == self.stream,
            r.flac_stream == self.flac_stream,
    {
        let v = self.clone();
        Video { player_info: Some(player_info), ..v }
    }

    /// Whether the stream that a download would take, if any, was obtained no
    /// later than `now`.
    pub fn chosen_obtained_by(&self, now: Timestamp) -> (r: bool)
        ensures
            r == self@.chosen_obtained_by(now),
    {
        if let Some(flac_stream) = &self.flac_stream {
            flac_stream.obtained_by(now)
        } else if let Some(stream) = &self.stream {
            stream.obtained_by(now)
        } else {
            true
        }
    }

    /// The address to download from at `now`: the lossless stream's when
    /// there is one, otherwise the other stream's, as long as the chosen
    /// address is still usable at `now` by the chosen stream's own stamp.
    /// An instant before the chosen address was obtained is left out.
    pub fn download_url_at(&self, now: Timestamp) -> (r: Result<String, BiliError>)
        requires
            self@.chosen_obtained_by(now),
        ensures
            result_view(r) == self@.download_url_at(now),
    {
        if let Some(flac_stream) = &self.flac_stream {
            match flac_stream.url_at(now) {
                Some(url) => Ok(url),
                None => Err(BiliError::UrlExpired),
            }
        } else if let Some(stream) = &self.stream {
            match stream.url_at(now) {
                Some(url) => Ok(url),
                None => Err(BiliError::UrlExpired),
            }
        } else {
            Err(BiliError::NoStream)
        }
    }

    /// The address to download from: what `download_url_at` gives at the
    /// instant the clock reads.  Which instant that is depends on the clock;
    /// whatever it is, an address handed back is the chosen stream's, and the
    /// only error besides `NoStream` (no stream at all) is that the chosen
    /// stream's address expired.  When the clock reads earlier than the
    /// chosen address was obtained, the address has no age and is treated as
    /// expired.
    pub fn download_url(&self) -> (r: Result<String, BiliError>)
        ensures
            exists|now: Timestamp| result_view(r) == #[trigger] self@.download_url_at(now),
            match (&self.flac_stream, &self.stream) {
                (Some(f), _) => match r {
                    Ok(url) => url@ == f.base_url@,
                    Err(e) => e@ == BiliErrorView::UrlExpired,
                },
                (None, Some(s)) => match r {
                    Ok(url) => url@ == s.base_url@,
                    Err(e) => e@ == BiliErrorView::UrlExpired,
                },
                (None, None) => match r {
                    Ok(_) => false,
                    Err(e) => e@ == BiliErrorView::NoStream,
                },
            },
    {
        let now = Timestamp::now();
        if self.chosen_obtained_by(now) {
            let r = self.download_url_at(now);
            assert(result_view(r) == self@.download_url_at(now));
            r
        } else {
            let r = Err(BiliError::UrlExpired);
            assert(result_view(r) == self@.download_url_at(now));
            r
        }
    }
}

impl VideoView {
    /// Whether the stream that a download would take, if any, was obtained
    /// no later than `now`.
    pub open spec fn chosen_obtained_by(self, now: Timestamp) -> bool {
        match (self.flac_stream, self.stream) {
            (Some(f), _) => f.get_time.since_epoch_nanos <= now.since_epoch_nanos,
            (None, Some(s)) => s.get_time.since_epoch_nanos <= now.since_epoch_nanos,
            (None, None) => true,
        }
    }

    /// What `download_url_at` gives at `now`.
    pub open spec fn download_url_at(self, now: Timestamp) -> Result<Seq<char>, BiliErrorView> {
        match (self.flac_stream, self.stream) {
            (Some(f), _) => match f.url_at(now) {
                Some(url) => Ok(url),
                None => Err(BiliErrorView::UrlExpired),
            },
            (None, Some(s)) => match s.url_at(now) {
                Some(url) => Ok(url),
                None => Err(BiliErrorView::UrlExpired),
            },
            (None, None) => Err(BiliErrorView::NoStream),
        }
    }
}

/// The stream a download takes: the lossless one when there is one,
/// otherwise the other one.
pub open spec fn chosen_stream(video: VideoView) -> Option<BiliStreamView> {
    match video.flac_stream {
        Some(f) => Some(f),
        None => video.stream,
    }
}

/// At an instant no earlier than the chosen stream was obtained and less
/// than the address lifetime after it, a download gets the chosen stream's
/// address, whatever its quality; at any other instant the address has
/// expired; with no stream at all there is nothing to download.
pub proof fn lemma_download_url_within_lifetime(video: VideoView, now: Timestamp)
    ensures
        chosen_stream(video) matches Some(c) ==> {
            &&& (c.get_time.since_epoch_nanos <= now.since_epoch_nanos && now.since_epoch_nanos
                < c.get_time.since_epoch_nanos + STREAM_URL_LIFETIME_SECS * NANOS_PER_SEC) ==> video.download_url_at(
                now,
            ) == Ok::<Seq<char>, BiliErrorView>(c.base_url)
            &&& !(c.get_time.since_epoch_nanos <= now.since_epoch_nanos && now.since_epoch_nanos
                < c.get_time.since_epoch_nanos + STREAM_URL_LIFETIME_SECS * NANOS_PER_SEC) ==> video.download_url_at(
                now,
            ) == Err::<Seq<char>, BiliErrorView>(BiliErrorView::UrlExpired)
        },
        chosen_stream(video) is None ==> video.download_url_at(now) == Err::<Seq<char>, BiliErrorView>(
            BiliErrorView::NoStream,
        ),
{
}

/// How a video is looked up.
#[derive(Clone, Copy, Debug, PartialEq, Eq, Structural)]
pub enum QueryType {
    /// By its BV id.
    BVID,
    /// By its AV number.
    AVID,
}

/// The view of a list of request parameters.
pub open spec fn params_view(params: Seq<(String, String)>) -> Seq<(Seq<char>, Seq<char>)> {
    params.map_values(|p: (String, String)| (p.0@, p.1@))
}

/// The parameters of a video-details request.
pub fn video_details_params(query_type: QueryType, id: String) -> (r: Vec<(String, String)>)
    ensures
        params_view(r@) == seq![
            (match query_type {
                QueryType::BVID => "bvid"@,
                QueryType::AVID => "aid"@,
            }, id@),
        ],
{
    let key = match query_type {
        QueryType::BVID => String::from_str("bvid"),
        QueryType::AVID => String::from_str("aid"),
    };
    let r = vec![(key, id)];
    assert(params_view(r@) =~= seq![(
        match query_type {
            QueryType::BVID => "bvid"@,
            QueryType::AVID => "aid"@,
        },
        r@[0].1@,
    )]);
    r
}

/// The parameters of a player-information request.
pub fn player_info_params(bvid: String, cid: i64) -> (r: Vec<(String, String)>)
    ensures
        params_view(r@) == seq![("bvid"@, bvid@), ("cid"@, decimal(cid as int))],
{
    let r = vec![(String::from_str("bvid"), bvid), (String::from_str("cid"), decimal_string(cid))];
    assert(params_view(r@) =~= seq![("bvid"@, bvid@), ("cid"@, decimal(cid as int))]);
    r
}

/// The parameters of a stream request: the DASH streams that need no
/// cookie, as the PC web player asks for them.
pub fn stream_params(bvid: String, cid: i64) -> (r: Vec<(String, String)>)
    ensures
        params_view(r@) == seq![
            ("bvid"@, bvid@),
            ("cid"@, decimal(cid as int)),
            ("gaia_source"@, "view-card"@),
            ("fnval"@, "16"@),
            ("platform"@, "pc"@),
        ],
{
    let r = vec![
        (String::from_str("bvid"), bvid),
        (String::from_str("cid"), decimal_string(cid)),
        (String::from_str("gaia_source"), String::from_str("view-card")),
        (String::from_str("fnval"), String::from_str("16")),
        (String::from_str("platform"), String::from_str("pc")),
    ];
    assert(params_view(r@) =~= seq![
        ("bvid"@, bvid@),
        ("cid"@, decimal(cid as int)),
        ("gaia_source"@, "view-card"@),
        ("fnval"@, "16"@),
        ("platform"@, "pc"@),
    ]);
    r
}

} // verus!
