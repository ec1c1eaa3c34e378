//! A conversational relay core: per-user session transcripts, bounded
//! prompt-window assembly, completion request framing and response decoding,
//! command parsing with model gating, and the error/reply contract that
//! wraps every handler.

pub mod codec;
pub mod dispatch;
pub mod laws;
pub mod logging;
pub mod parse;
pub mod router;
pub mod schema;
pub mod session;
pub mod text;
pub mod window;
