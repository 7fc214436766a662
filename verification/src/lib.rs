//! Client-side protocol logic for an asynchronous audio generation service.
//!
//! A job is submitted once, its polling location is asked until the job is
//! done, and the finished piece is streamed into a sink. This crate holds the
//! decisions of that protocol; the caller performs the requests, the waiting
//! and the writing, and reports back what happened.

pub mod downloader;
pub mod headers;
pub mod pipeline;
pub mod poller;
pub mod schemas;
pub mod settings;
