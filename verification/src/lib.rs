//! A small news-reader library: application state for a headlines viewer,
//! and a fetcher that turns an HTTP response for the top-headlines endpoint
//! into a list of articles.

pub mod decimal;
pub mod json;
pub mod headlines;
pub mod newsapi;
