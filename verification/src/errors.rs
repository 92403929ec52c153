//! The errors that the downloader reports.

use vstd::prelude::*;

verus! {

/// What went wrong while talking to the API or choosing what to download.
pub enum BiliError {
    /// The API answered with a non-zero code; this is the message it gave.
    RequestFailed(String),
    /// A response lacked a field that the downloader needs.
    Deserialization,
    /// A query of a kind that the downloader does not know.
    InvalidQueryType,
    /// The address of the chosen stream is no longer usable.
    UrlExpired,
    /// The video has no stream to download.
    NoStream,
}

pub enum BiliErrorView {
    RequestFailed(Seq<char>),
    Deserialization,
    InvalidQueryType,
    UrlExpired,
    NoStream,
}

impl View for BiliError {
    type V = BiliErrorView;

    open spec fn view(&self) -> BiliErrorView {
        match self {
            BiliError::RequestFailed(m) => BiliErrorView::RequestFailed(m@),
            BiliError::Deserialization => BiliErrorView::Deserialization,
            BiliError::InvalidQueryType => BiliErrorView::InvalidQueryType,
            BiliError::UrlExpired => BiliErrorView::UrlExpired,
            BiliError::NoStream => BiliErrorView::NoStream,
        }
    }
}

/// The view of a result whose error is a `BiliError`.
pub open spec fn result_view<T: DeepView>(r: Result<T, BiliError>) -> Result<T::V, BiliErrorView> {
    match r {
        Ok(v) => Ok(v.deep_view()),
        Err(e) => Err(e@),
    }
}

impl BiliErrorView {
    /// The text that an error is shown with.
    pub open spec fn message(self) -> Seq<char> {
        match self {
            BiliErrorView::RequestFailed(m) => "Failed when request: "@ + m,
            BiliErrorView::Deserialization => "failed when deserialization response"@,
            BiliErrorView::InvalidQueryType => "invalid query_type"@,
            BiliErrorView::UrlExpired => "URL expired (timeout)"@,
            BiliErrorView::NoStream => "Invalid stream URLs"@,
        }
    }
}

impl BiliError {
    /// The text that this error is shown with.
    pub fn message(&self) -> (r: String)
        ensures
            r@ == self@.message(),
    {
        match self {
            BiliError::RequestFailed(m) => String::from_str("Failed when request: ").concat(m.as_str()),
            BiliError::Deserialization => String::from_str("failed when deserialization response"),
            BiliError::InvalidQueryType => String::from_str("invalid query_type"),
            BiliError::UrlExpired => String::from_str("URL expired (timeout)"),
            BiliError::NoStream => String::from_str("Invalid stream URLs"),
        }
    }
}

} // verus!
