//! The data model: pixels, rooms, the identity of a session and the
//! messages that clients and the server exchange.

use crate::colour::PixelColour;
use crate::ident::Uuid;
use vstd::prelude::*;

verus! {

/// One cell of the canvas and its colour. A later pixel at the same
/// position replaces an earlier one.
#[derive(Clone, Copy, Debug, PartialEq, Eq, Structural, Hash)]
pub struct Pixel {
    pub x: u32,
    pub y: u32,
    pub colour: PixelColour,
}

/// The canvas of a room as it stood when the session joined it: the pixels
/// in the order in which they were drawn.
#[derive(Clone, Debug, PartialEq, Eq)]
pub struct Room {
    pub id: Uuid,
    pub pixels: Vec<Pixel>,
}

/// What a `Room` holds.
pub struct RoomView {
    pub id: Uuid,
    pub pixels: Seq<Pixel>,
}

impl View for Room {
    type V = RoomView;

    open spec fn view(&self) -> RoomView {
        RoomView { id: self.id, pixels: self.pixels@ }
    }
}

/// Who the local user is and which room the session is in.
#[derive(Clone, Copy, Debug, PartialEq, Eq, Structural, Hash)]
pub struct SessionIdentity {
    pub user_id: Uuid,
    pub room_id: Uuid,
}

/// A message from a client to the server.
#[derive(Clone, Copy, Debug, PartialEq, Eq, Structural, Hash)]
pub enum ClientCommand {
    CreateRoom,
    JoinRoom(Uuid),
    Draw(Pixel),
    Reset,
}

/// A message from the server to a client.
#[derive(Clone, Debug, PartialEq, Eq)]
pub enum ServerEvent {
    RoomCreated { room_id: Uuid, user_id: Uuid },
    RoomJoined { room: Room, user_id: Uuid },
    RoomNotFound,
    PeerDraw { user_id: Uuid, pixel: Pixel },
    PeerReset { user_id: Uuid },
}

/// What a `ServerEvent` holds.
pub enum EventView {
    RoomCreated { room_id: Uuid, user_id: Uuid },
    RoomJoined { room: RoomView, user_id: Uuid },
    RoomNotFound,
    PeerDraw { user_id: Uuid, pixel: Pixel },
    PeerReset { user_id: Uuid },
}

impl View for ServerEvent {
    type V = EventView;

    open spec fn view(&self) -> EventView {
        match *self {
            ServerEvent::RoomCreated { room_id, user_id } => EventView::RoomCreated {
                room_id,
                user_id,
            },
            ServerEvent::RoomJoined { room, user_id } => EventView::RoomJoined {
                room: room@,
                user_id,
            },
            ServerEvent::RoomNotFound => EventView::RoomNotFound,
            ServerEvent::PeerDraw { user_id, pixel } => EventView::PeerDraw { user_id, pixel },
            ServerEvent::PeerReset { user_id } => EventView::PeerReset { user_id },
        }
    }
}

/// What an optional event holds.
pub open spec fn event_view(event: Option<ServerEvent>) -> Option<EventView> {
    match event {
        Some(e) => Some(e@),
        None => None,
    }
}

/// What the connection hands over next.
#[derive(Clone, Debug, PartialEq, Eq)]
pub enum Frame {
    /// A text message.
    Text(String),
    /// A message that carries no text.
    Other,
    /// The end of the connection, or a failure of the transport.
    Closed,
}

/// The kinds of failure that end a session before it has begun.
#[derive(Clone, Copy, Debug, PartialEq, Eq, Structural, Hash)]
pub enum Failure {
    /// The text given for a room is no identifier.
    InvalidRoomId,
    /// The connection could not be made, or failed during the handshake.
    ConnectionError,
    /// The server answered the handshake with a message that has no place
    /// in it.
    ProtocolViolation,
}

} // verus!
