//! Polls a match provider for new guild matches and turns each one into
//! notifications for chat destinations, tracking a watermark of what was sent.

pub mod errors;
pub mod text;
pub mod publisher;
pub mod stratz;
pub mod utils;
pub mod kook;
pub mod webhook;
pub mod pipeline;
pub mod client;
