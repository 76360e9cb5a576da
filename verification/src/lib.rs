//! Session protocol and input handling for a collaborative terminal drawing
//! client: the data model, the colour palette, the wire encoding, the room
//! handshake, echo suppression for inbound events and the reactions to
//! terminal input.

pub mod colour;
pub mod handshake;
pub mod ident;
pub mod inbound;
pub mod input;
pub mod json;
pub mod model;
pub mod terminal;
pub mod wire;
