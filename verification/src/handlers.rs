//! What a query asks for, and the card that shows its answer.

use crate::app_state::QueryCardInfoRust;
use crate::bilibili::modules::Video;
use crate::errors::{BiliError, BiliErrorView};
use crate::frontend::CoverImage;
use vstd::prelude::*;

verus! {

/// What a query looks up.
#[derive(Clone, Copy, Debug, PartialEq, Eq, Structural)]
pub enum QueryKind {
    /// A video, by its BV id.
    Video,
}

/// The kind of query that the window's query type stands for: 0 is a video;
/// every other value is refused.
pub fn query_kind(query_type: i32) -> (r: Result<QueryKind, BiliError>)
    ensures
        match r {
            Ok(kind) => query_type == 0 && kind == QueryKind::Video,
            Err(e) => query_type != 0 && e@ == BiliErrorView::InvalidQueryType,
        },
{
    if query_type == 0 {
        Ok(QueryKind::Video)
    } else {
        Err(BiliError::InvalidQueryType)
    }
}

/// The card for a video found by a query, with its cover: the uploader's
/// name as author, and the number of parts as count (the low 32 bits of it,
/// as a cast to `i32` gives them).
pub fn handle_video_info(video: Video, image_buf: CoverImage) -> (r: QueryCardInfoRust)
    ensures
        r.author == video.upper.name,
        r.bvid == video.info.bvid,
        r.count == video.info.videos as i32,
        r.cover == image_buf,
        r.title == video.info.title,
{
    let count = video.info.videos as i32;
    QueryCardInfoRust {
        author: video.upper.name,
        bvid: video.info.bvid,
        count,
        cover: image_buf,
        title: video.info.title,
    }
}

} // verus!
