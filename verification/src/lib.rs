//! A minimal SNTP client library: the fixed 48-byte packet codec,
//! the request builder, the clock-offset arithmetic, and the linear
//! state machine of one request/response exchange.

pub mod codec;
pub mod engine;
pub mod packet;
