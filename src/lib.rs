//! Control-plane engine of an EV charging controller: the wire codec spoken
//! with the charging co-processor, the session state machine that reacts to
//! its events, and the checks around the message channel.

pub mod channel;
pub mod codec;
pub mod engine;
pub mod fields;
pub mod varint;
pub mod verbs;
