//! Address checks for Anytime Mailbox locations in the United States.
pub mod text;
pub mod model;
pub mod config;
pub mod scrape;
pub mod page;
pub mod crawl;
pub mod json;
pub mod smarty;
pub mod usps;
pub mod record;
pub mod report;
pub mod laws;
pub mod state_table;
pub mod reading_laws;
