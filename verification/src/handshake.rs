//! The handshake that opens a session: a room is created or joined, and the
//! server's answer gives the session its identity.

use crate::ident::{uuid_of_text, Uuid};
use crate::model::{
    ClientCommand, EventView, Failure, Frame, Room, RoomView, ServerEvent, SessionIdentity,
    event_view,
};
use crate::wire::{event_from_text, text_event};
use vstd::prelude::*;

verus! {

/// A handshake that waits for the server's answer.
#[derive(Clone, Copy, Debug, PartialEq, Eq, Structural, Hash)]
pub enum Pending {
    /// A room was asked for.
    Create,
    /// The room of this identifier is being joined.
    Join { room_id: Uuid },
}

/// How far a handshake has come.
#[derive(Clone, Debug, PartialEq, Eq)]
pub enum Progress {
    /// The answer has not come yet.
    Waiting,
    /// The session stands: its identity, and the room as it was found.
    Established { session: SessionIdentity, room: Room },
    /// The server knows no room of the identifier given. Nothing is lost:
    /// the operator is asked for another.
    RoomUnknown,
    /// The handshake failed, and with it the start of the session.
    Failed(Failure),
}

/// What a `Progress` holds.
pub enum ProgressView {
    Waiting,
    Established { session: SessionIdentity, room: RoomView },
    RoomUnknown,
    Failed(Failure),
}

impl View for Progress {
    type V = ProgressView;

    open spec fn view(&self) -> ProgressView {
        match *self {
            Progress::Waiting => ProgressView::Waiting,
            Progress::Established { session, room } => ProgressView::Established {
                session,
                room: room@,
            },
            Progress::RoomUnknown => ProgressView::RoomUnknown,
            Progress::Failed(failure) => ProgressView::Failed(failure),
        }
    }
}

/// The handshake that the operator's text for a room opens: an empty text
/// asks for a new room, an identifier joins its room, and any other text
/// fails before anything is sent.
pub open spec fn opening(room_text: Seq<char>) -> Result<Pending, Failure> {
    if room_text.len() == 0 {
        Ok(Pending::Create)
    } else {
        joining(uuid_of_text(room_text))
    }
}

/// The handshake that joins the room of what a text was read as: it fails
/// where the text was read as no identifier.
pub open spec fn joining(room_id: Option<Uuid>) -> Result<Pending, Failure> {
    match room_id {
        Some(room_id) => Ok(Pending::Join { room_id }),
        None => Err(Failure::InvalidRoomId),
    }
}

/// The command that opens a handshake.
pub open spec fn opening_command(pending: Pending) -> ClientCommand {
    match pending {
        Pending::Create => ClientCommand::CreateRoom,
        Pending::Join { room_id } => ClientCommand::JoinRoom(room_id),
    }
}

/// What a waiting handshake makes of what a text frame was read as.
///
/// Where a room was asked for, only its creation ends the wait, with an
/// empty room; anything else is passed over. Where a room is being joined,
/// the room ends the wait, an unknown room sends the operator back to the
/// choice of one, and anything else is a violation of the protocol.
pub open spec fn settled(pending: Pending, event: Option<EventView>) -> ProgressView {
    match pending {
        Pending::Create => match event {
            Some(EventView::RoomCreated { room_id, user_id }) => ProgressView::Established {
                session: SessionIdentity { user_id, room_id },
                room: RoomView { id: room_id, pixels: Seq::empty() },
            },
            _ => ProgressView::Waiting,
        },
        Pending::Join { room_id } => match event {
            Some(EventView::RoomJoined { room, user_id }) => ProgressView::Established {
                session: SessionIdentity { user_id, room_id: room.id },
                room,
            },
            Some(EventView::RoomNotFound) => ProgressView::RoomUnknown,
            _ => ProgressView::Failed(Failure::ProtocolViolation),
        },
    }
}

/// What a waiting handshake makes of a frame: a text is read as an event
/// and settled, a frame without text is passed over, and the end of the
/// connection fails the handshake.
pub open spec fn advanced(pending: Pending, frame: Frame) -> ProgressView {
    match frame {
        Frame::Text(text) => settled(pending, text_event(text@)),
        Frame::Other => ProgressView::Waiting,
        Frame::Closed => ProgressView::Failed(Failure::ConnectionError),
    }
}

/// A session stands only on the answer that the handshake waits for, and
/// has its identity from that answer: a created room for a handshake that
/// asked for one, the joined room for one that joins. An unknown room never
/// makes a session.
pub proof fn session_needs_matching_answer(pending: Pending, event: Option<EventView>)
    ensures
        settled(pending, event) is Established <==> (pending is Create && event is Some
            && event->0 is RoomCreated) || (pending is Join && event is Some
            && event->0 is RoomJoined),
        settled(pending, event) matches ProgressView::Established { session, room } ==> match event->0 {
            EventView::RoomCreated { room_id, user_id } => session == SessionIdentity {
                user_id,
                room_id,
            } && room.id == room_id && room.pixels.len() == 0,
            EventView::RoomJoined { room: joined, user_id } => session == SessionIdentity {
                user_id,
                room_id: joined.id,
            } && room == joined,
            _ => false,
        },
        event == Some(EventView::RoomNotFound) ==> !(settled(pending, event) is Established),
{
}

/// Opens a handshake from the operator's text for a room.
pub fn begin(room_text: &str) -> (pending: Result<Pending, Failure>)
    ensures
        pending == opening(room_text@),
{
    if room_text.is_empty() {
        Ok(Pending::Create)
    } else {
        join(Uuid::parse(room_text))
    }
}

/// Opens the handshake that joins a room from what the operator's text was
/// read as.
pub fn join(room_id: Option<Uuid>) -> (pending: Result<Pending, Failure>)
    ensures
        pending == joining(room_id),
{
    match room_id {
        Some(room_id) => Ok(Pending::Join { room_id }),
        None => Err(Failure::InvalidRoomId),
    }
}

impl Pending {
    /// The command that opens the handshake.
    pub fn command(&self) -> (command: ClientCommand)
        ensures
            command == opening_command(*self),
    {
        match self {
            Pending::Create => ClientCommand::CreateRoom,
            Pending::Join { room_id } => ClientCommand::JoinRoom(*room_id),
        }
    }

    /// Takes what a text frame was read as.
    pub fn settle(&self, event: Option<ServerEvent>) -> (progress: Progress)
        ensures
            progress@ == settled(*self, event_view(event)),
    {
        match self {
            Pending::Create => match event {
                Some(ServerEvent::RoomCreated { room_id, user_id }) => Progress::Established {
                    session: SessionIdentity { user_id, room_id },
                    room: Room { id: room_id, pixels: Vec::new() },
                },
                _ => Progress::Waiting,
            },
            Pending::Join { room_id } => match event {
                Some(ServerEvent::RoomJoined { room, user_id }) => Progress::Established {
                    session: SessionIdentity { user_id, room_id: room.id },
                    room,
                },
                Some(ServerEvent::RoomNotFound) => Progress::RoomUnknown,
                _ => Progress::Failed(Failure::ProtocolViolation),
            },
        }
    }

    /// Takes the next frame of the connection.
    pub fn advance(&self, frame: &Frame) -> (progress: Progress)
        ensures
            progress@ == advanced(*self, *frame),
    {
        match frame {
            Frame::Text(text) => self.settle(event_from_text(text.as_str())),
            Frame::Other => Progress::Waiting,
            Frame::Closed => Progress::Failed(Failure::ConnectionError),
        }
    }
}

} // verus!
