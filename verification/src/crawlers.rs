//! Credit offers gathered from the public sites of several banks: one adapter
//! per site, a text normaliser and a classifier shared by all of them.

pub mod asaka_crawler;
pub mod asia_alliance_crawler;
pub mod credit;
pub mod error;
pub mod laws;
pub mod markup;
pub mod payload;
pub mod run_laws;
pub mod session;
pub mod text_helpers;

pub use credit::{Credit, CreditType, CreditView};
pub use error::{CrawlError, CrawlErrorView};
pub use text_helpers::{clean_text, find_credit_type};
