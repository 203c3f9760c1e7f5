//! Relaying signed bitcoin transactions over a public pub/sub network:
//! the message codec, the network resolver and the decisions of the two
//! drivers that sit on either side of the transport.

pub mod hex;
pub mod listener;
pub mod message;
pub mod network;
pub mod publisher;
pub mod transaction;
