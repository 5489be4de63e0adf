//! A thin client core for the New York Times article feeds.

pub mod article;
pub mod client;
pub mod error;
pub mod request;
pub mod section;
