//! Client-side core of a conversational-agent wire protocol: decoding and
//! dispatch of inbound events, at-most-once in-order delivery of ordered
//! events, conversation-identity tracking, and outbound message encoding.

pub mod client;
pub mod codec;
pub mod errors;
pub mod input;
pub mod jsonio;
pub mod laws;
pub mod msg;
pub mod textcmp;
