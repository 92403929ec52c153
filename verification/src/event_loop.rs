//! The decisions of the event loop: how each event of the window changes the
//! state, and what the loop has to do about it.
//!
//! The loop itself (receiving events, running queries, showing the state)
//! stands around this: after `handle_event` it shows the state, runs the
//! query it is given if any, hands the outcome to `finish_query`, and shows
//! the state again.

use crate::app_state::{AppState, DownloadView, QueryCardInfoRust};
use crate::bilibili::modules::Video;
use crate::frontend::CoverImage;
use crate::handlers::handle_video_info;
use vstd::prelude::*;

verus! {

/// An event sent by the window.
pub enum AppEvent {
    /// Look up `input`; the number is the kind of query.
    QueryBiliInfo(String, i32),
    /// Switch the download view to the page with this index.
    SetDownloadViewIndex(i32),
}

impl DownloadView {
    /// The view while a query runs.
    pub open spec fn spec_begin_query(self) -> DownloadView {
        DownloadView { query_is_querying: true, ..self }
    }

    /// The view once a query has ended, with the card of its answer when it
    /// succeeded: the card is shown, and nothing is being asked any more.
    pub open spec fn spec_finish_query(self, card: Option<QueryCardInfoRust>) -> DownloadView {
        match card {
            Some(c) => DownloadView {
                query_card_info: c,
                query_is_info_showing: true,
                query_is_querying: false,
                ..self
            },
            None => DownloadView { query_is_querying: false, ..self },
        }
    }
}

impl AppState {
    /// Takes an event of the window.  A query marks the view as querying and
    /// gives back what to look up; a page switch sets the page.  Nothing else
    /// changes.
    pub fn handle_event(&mut self, event: AppEvent) -> (query: Option<(String, i32)>)
        ensures
            final(self).current_item == old(self).current_item,
            final(self).task_list == old(self).task_list,
            final(self).temp_task_list == old(self).temp_task_list,
            match event {
                AppEvent::QueryBiliInfo(input, query_type) => {
                    &&& query == Some((input, query_type))
                    &&& final(self).views.download_view == old(
                        self,
                    ).views.download_view.spec_begin_query()
                },
                AppEvent::SetDownloadViewIndex(index) => {
                    &&& query is None
                    &&& final(self).views.download_view == (DownloadView {
                        download_view_index: index,
                        ..old(self).views.download_view
                    })
                },
            },
    {
        match event {
            AppEvent::QueryBiliInfo(input, query_type) => {
                self.views.download_view.query_is_querying = true;
                Some((input, query_type))
            },
            AppEvent::SetDownloadViewIndex(index) => {
                self.views.download_view.download_view_index = index;
                None
            },
        }
    }

    /// Takes the outcome of a query: the video found and its cover, or `None`
    /// when the query failed.  A video found fills the card and shows it;
    /// either way the view stops querying.  Nothing else changes.
    pub fn finish_query(&mut self, outcome: Option<(Video, CoverImage)>)
        ensures
            final(self).current_item == old(self).current_item,
            final(self).task_list == old(self).task_list,
            final(self).temp_task_list == old(self).temp_task_list,
            match outcome {
                Some((video, cover)) => {
                    let card = final(self).views.download_view.query_card_info;
                    &&& final(self).views.download_view == old(
                        self,
                    ).views.download_view.spec_finish_query(Some(card))
                    &&& card.bvid == video.info.bvid
                    &&& card.title == video.info.title
                    &&& card.cover == cover
                    &&& card.author == video.upper.name
                    &&& card.count == video.info.videos as i32
                },
                None => final(self).views.download_view == old(
                    self,
                ).views.download_view.spec_finish_query(None),
            },
    {
        match outcome {
            Some((video, cover)) => {
                self.views.download_view.query_card_info = handle_video_info(video, cover);
                self.views.download_view.query_is_info_showing = true;
            },
            None => {},
        }
        self.views.download_view.query_is_querying = false;
    }
}

/// However a query ends, the view is no longer querying afterwards, and
/// everything but the card and whether it is shown is as it was before the
/// query began.
pub proof fn lemma_query_round_trip(view: DownloadView, card: Option<QueryCardInfoRust>)
    ensures
        !view.spec_begin_query().spec_finish_query(card).query_is_querying,
        view.spec_begin_query().spec_finish_query(card).download_view_index
            == view.download_view_index,
        view.spec_begin_query().spec_finish_query(card).create_task_view_index
            == view.create_task_view_index,
        view.spec_begin_query().spec_finish_query(card).query_is_info_showing == (card is Some
            || view.query_is_info_showing),
        card is None ==> view.spec_begin_query().spec_finish_query(card) == (DownloadView {
            query_is_querying: false,
            ..view
        }),
{
}

} // verus!
