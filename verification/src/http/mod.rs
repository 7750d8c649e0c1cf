//! The HTTP endpoints.

pub mod ping;
pub mod ping_delay;
pub mod sse;
pub mod ws;

pub use ping::ping_handler;
pub use ping_delay::ping_delay_handler;
pub use sse::sse_ping_handler;
pub use ws::ws_handler;
