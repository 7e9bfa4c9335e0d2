//! Release-sync engine: resolving the newest feed entry into an artifact
//! record, deciding whether it still has to be fetched, and steering a
//! resumable, retrying transfer.

pub mod text;

pub mod error;

pub mod clock;

pub mod record;

pub mod feed;

pub mod transfer;

pub mod cycle;

pub mod downloader;
