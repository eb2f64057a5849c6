//! Manual copy-and-paste signaling for a single peer-to-peer data channel.
//!
//! Two processes, one that offers and one that answers, each show their
//! session descriptor as one line of base64 text and are given the other's
//! line by hand. This crate holds what such a process decides: the form of
//! the line, the order of the handshake, when to stop sending, and when to
//! end. The transport itself, standard input and output, and the clock stay
//! with the caller.

pub mod base64_model;
pub mod channel;
pub mod codec;
pub mod descriptor;
pub mod error;
pub mod handshake;
pub mod runs;
pub mod text;
pub mod watch;

pub use crate::codec::{decode, encode};
