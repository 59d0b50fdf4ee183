//! Mirrors bookmarked videos to disk: a persistent queue of download jobs, a
//! pool of workers that report their progress as messages, and the consumer
//! that folds those messages into a progress view and into the job table.

pub mod aggregator;
pub mod config;
pub mod downloader;
pub mod failed;
pub mod library;
pub mod prepare;
pub mod process_repository;
pub mod run;
pub mod synchronize;
pub mod types;
pub mod ui;
pub mod youtube;
