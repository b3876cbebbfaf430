//! Event collection and map-serving logic: normalising provider feeds into
//! events, text extraction helpers, date handling and display formatting.

pub mod config;
pub mod chars;
pub mod numbers;
pub mod datetime;
pub mod models;
pub mod text_processing;
pub mod etl;
pub mod event_fetcher;
pub mod database;
pub mod geocoding;
pub mod display;
pub mod collector;
