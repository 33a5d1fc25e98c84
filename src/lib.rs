//! Submission and completion tracking for a chat bridge to a torrent client:
//! which torrent a submission created, when it is finished, and what the
//! command reports.

pub mod identify;
pub mod commands;
pub mod poller;
pub mod download;
