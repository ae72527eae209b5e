//! Core of a log-shipping agent: the state of a tailed file with its
//! checkpoint, and the decisions of the archive uploader.

pub mod configuration;
pub mod flags;
pub mod forwarder;
pub mod owner;
pub mod path;
pub mod s3_client;
pub mod watcher;
