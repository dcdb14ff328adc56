//! Core of an unattended episode downloader: a network-location check, the
//! watch-list configuration store, the episode resolver client and the
//! download orchestrator, each written as verified decisions over plain
//! values. Processes, files, HTTP and JSON text stay with the caller.
pub mod error;
pub mod location;
pub mod config;
pub mod resolver;
pub mod download;
