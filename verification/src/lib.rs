//! Rules of a price telemetry service: what the poller, the persistence
//! worker, the broadcast hub and the web endpoints decide, with the contracts
//! that Verus proves of them.

pub mod app;
pub mod config;
pub mod data;
pub mod decimal;
pub mod hub;
pub mod persistence;
pub mod scraper;
pub mod web;
