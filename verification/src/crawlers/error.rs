//! Why an adapter run ends without offers.

use crate::text::{decimal, format_u64};
use vstd::prelude::*;
use vstd::string::StringExecFns;

verus! {

/// The failure that ends an adapter run.
#[derive(Debug)]
pub enum CrawlError {
    /// The request did not reach the site, or no answer came back.
    NetworkError { reason: String },
    /// The site answered with a status outside 200..=299.
    UnexpectedStatus { status: u16 },
    /// The body is not what the adapter reads, or lacks its top-level list.
    DecodeError,
    /// An item lacks a member that the adapter cannot do without.
    MissingField { field: String },
}

/// The mathematical value of a [`CrawlError`].
pub enum CrawlErrorView {
    NetworkError { reason: Seq<char> },
    UnexpectedStatus { status: u16 },
    DecodeError,
    MissingField { field: Seq<char> },
}

impl View for CrawlError {
    type V = CrawlErrorView;

    open spec fn view(&self) -> CrawlErrorView {
        match self {
            CrawlError::NetworkError { reason } => CrawlErrorView::NetworkError {
                reason: reason@,
            },
            CrawlError::UnexpectedStatus { status } => CrawlErrorView::UnexpectedStatus {
                status: *status,
            },
            CrawlError::DecodeError => CrawlErrorView::DecodeError,
            CrawlError::MissingField { field } => CrawlErrorView::MissingField { field: field@ },
        }
    }
}

impl DeepView for CrawlError {
    type V = CrawlErrorView;

    open spec fn deep_view(&self) -> CrawlErrorView {
        self@
    }
}

/// The reason of a failure in words, as a report of the run shows it.
pub open spec fn failure_message(error: CrawlErrorView) -> Seq<char> {
    match error {
        CrawlErrorView::NetworkError { reason } => "network error: "@ + reason,
        CrawlErrorView::UnexpectedStatus { status } => "unexpected status: "@ + decimal(
            status as nat,
        ),
        CrawlErrorView::DecodeError => "undecodable body"@,
        CrawlErrorView::MissingField { field } => "missing field: "@ + field,
    }
}

impl CrawlError {
    /// The reason of the failure in words.
    pub fn message(&self) -> (r: String)
        ensures
            r@ == failure_message(self@),
    {
        match self {
            CrawlError::NetworkError { reason } => String::from_str("network error: ").concat(
                reason.as_str(),
            ),
            CrawlError::UnexpectedStatus { status } => String::from_str(
                "unexpected status: ",
            ).concat(format_u64(*status as u64).as_str()),
            CrawlError::DecodeError => String::from_str("undecodable body"),
            CrawlError::MissingField { field } => String::from_str("missing field: ").concat(
                field.as_str(),
            ),
        }
    }
}

} // verus!
