//! A client for the Ribbon protocol: its JSON packet model and codec, and the
//! session state machine that decides what to send for each packet received.
//!
//! - `json`: the JSON value model and member lookup.
//! - `packet`: the messages, packets and payloads of the protocol.
//! - `codec`: the JSON form of each payload type.
//! - `wire`: the JSON form of messages: command tags, batches, payloads.
//! - `ribbon`: connection state, the ordering filter and the reactions.

pub mod codec;
pub mod json;
pub mod packet;
pub mod ribbon;
pub mod wire;
