//! Reconstruction of self-reply threads from shallow post lookups, their
//! progressive delivery as HTML, and the polling protocol that keeps a
//! rendered thread up to date.

pub mod bluesky;
pub mod config;
pub mod error;
pub mod handlers;
pub mod html;
pub mod logging;
pub mod pattern;
pub mod poller;
pub mod text;
pub mod time;
