//! Scrape pipeline: discover the links of a page through a rendering service,
//! fetch each one as Markdown and store it as an object, with a bounded retry
//! policy around every upstream call.
//!
//! The library decides; the host performs the network and storage work that
//! each decision asks for and feeds the outcome back.
pub mod keys;
pub mod retry;
pub mod client;
pub mod scrape;
