//! What the window shows and what the downloader holds between events.

use crate::bilibili::modules::Video;
use crate::bilibili::task_modules::Task;
use crate::frontend::CoverImage;
use vstd::prelude::*;

verus! {

/// The card that shows the video found by a query.
pub struct QueryCardInfoRust {
    pub bvid: String,
    pub title: String,
    pub cover: CoverImage,
    pub author: String,
    pub count: i32,
}

impl QueryCardInfoRust {
    /// Whether this is the card shown before any query: no text, an empty
    /// picture, a count of 0.
    pub open spec fn is_blank(self) -> bool {
        &&& self.bvid@.len() == 0
        &&& self.title@.len() == 0
        &&& self.author@.len() == 0
        &&& self.count == 0
        &&& self.cover.width == 0
        &&& self.cover.height == 0
        &&& self.cover.pixels@.len() == 0
    }
}

impl Default for QueryCardInfoRust {
    fn default() -> (r: Self)
        ensures
            r.is_blank(),
    {
        QueryCardInfoRust {
            bvid: String::new(),
            title: String::new(),
            cover: CoverImage::empty(),
            author: String::new(),
            count: 0,
        }
    }
}

/// The state of the download view.
pub struct DownloadView {
    pub download_view_index: i32,
    pub create_task_view_index: i32,
    pub query_is_info_showing: bool,
    pub query_is_querying: bool,
    pub query_card_info: QueryCardInfoRust,
}

impl DownloadView {
    /// Whether this is the view shown at start: first pages, nothing shown
    /// or asked, a blank card.
    pub open spec fn is_initial(self) -> bool {
        &&& self.download_view_index == 0
        &&& self.create_task_view_index == 0
        &&& !self.query_is_info_showing
        &&& !self.query_is_querying
        &&& self.query_card_info.is_blank()
    }
}

impl Default for DownloadView {
    fn default() -> (r: Self)
        ensures
            r.is_initial(),
    {
        DownloadView {
            download_view_index: 0,
            create_task_view_index: 0,
            query_is_info_showing: false,
            query_is_querying: false,
            query_card_info: QueryCardInfoRust::default(),
        }
    }
}

/// The states of all views.
pub struct Views {
    pub download_view: DownloadView,
}

impl Default for Views {
    fn default() -> (r: Self)
        ensures
            r.download_view.is_initial(),
    {
        Views { download_view: DownloadView::default() }
    }
}

/// Everything the downloader holds between events.
pub struct AppState {
    pub current_item: Option<Video>,
    pub task_list: Vec<Task>,
    pub temp_task_list: Vec<Task>,
    pub views: Views,
}

impl AppState {
    /// The state at start: no video, no tasks, the initial views.
    pub fn new() -> (r: AppState)
        ensures
            r.current_item is None,
            r.task_list@.len() == 0,
            r.temp_task_list@.len() == 0,
            r.views.download_view.is_initial(),
    {
        AppState {
            current_item: None,
            task_list: Vec::new(),
            temp_task_list: Vec::new(),
            views: Views::default(),
        }
    }
}

} // verus!
