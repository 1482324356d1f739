//! The HTML that shows a thread.

pub mod escape;
pub mod renderer;
pub mod templates;

pub use renderer::{render_post, render_thread};
pub use templates::{
    landing_page, streaming_error, streaming_footer, streaming_head, streaming_loading_indicator,
    streaming_post_before_indicator, StreamingHeadOptions,
};
