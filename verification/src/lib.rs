//! Finds the most recently modified file matching a glob pattern in a
//! directory and delivers it as a multipart attachment to a webhook endpoint.
//!
//! The selection logic (ranking candidates by modification time and applying
//! an optional recency cutoff) and the upload logic (deriving the attachment
//! name, framing the multipart body, classifying the response) are verified;
//! filesystem scanning, the clock, and the HTTP transport are reached through
//! a small set of trusted wrappers.

pub mod args;
pub mod config;
pub mod discord_sender;
pub mod duration;
pub mod file_finder;
pub mod text;
