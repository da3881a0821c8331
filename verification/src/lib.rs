//! Resolution of a page URL into an oEmbed-style rich preview record.

pub mod address;
pub mod errors;
pub mod exchange;
pub mod firecrawl_service;
pub mod html;
pub mod models;
pub mod provider;
pub mod text;
pub mod transport;
