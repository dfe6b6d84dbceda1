//! Verified core of DocSort, a background agent that watches folders for
//! documents and hands each relevant change to a single sequential worker.

pub mod autostart;
pub mod cli;
pub mod config;
pub mod filter;
pub mod folder;
pub mod ingest;
pub mod instance;
pub mod paths;
pub mod supervisor;
pub mod task;
pub mod text;
pub mod worker;
