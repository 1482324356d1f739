//! Posts, threads and the walk that reconstructs a self-reply thread.

pub mod assemble;
pub mod chain;
pub mod client;
pub mod types;
pub mod url_parser;
pub mod walk;

pub use assemble::ThreadAssembler;
pub use client::ClientError;
pub use types::{Author, StreamEvent, Thread, ThreadPost};
pub use url_parser::{parse_bluesky_url, BlueskyUrlParts};
pub use walk::WalkState;
