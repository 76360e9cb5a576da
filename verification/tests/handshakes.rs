use termdraw::colour::PixelColour;
use termdraw::handshake::{begin, join, Pending, Progress};
use termdraw::ident::Uuid;
use termdraw::model::{
    ClientCommand, Failure, Frame, Pixel, Room, ServerEvent, SessionIdentity,
};

const USER: Uuid = Uuid(0x550e8400_e29b_41d4_a716_446655440000);
const ROOM: Uuid = Uuid(0x936da01f_9abd_4d9d_80c7_02af85c822a8);

fn joined_room() -> Room {
    Room {
        id: ROOM,
        pixels: vec![
            Pixel { x: 0, y: 0, colour: PixelColour::White },
            Pixel { x: 0, y: 0, colour: PixelColour::Red },
        ],
    }
}

#[test]
fn an_empty_text_asks_for_a_new_room() {
    assert_eq!(begin(""), Ok(Pending::Create));
    assert_eq!(Pending::Create.command(), ClientCommand::CreateRoom);
}

#[test]
fn an_identifier_joins_its_room() {
    let pending = begin("936da01f-9abd-4d9d-80c7-02af85c822a8");
    assert_eq!(pending, Ok(Pending::Join { room_id: ROOM }));
    assert_eq!(Pending::Join { room_id: ROOM }.command(), ClientCommand::JoinRoom(ROOM));
}

#[test]
fn a_malformed_identifier_fails_before_anything_is_sent() {
    assert_eq!(begin("my room"), Err(Failure::InvalidRoomId));
    assert_eq!(begin(" "), Err(Failure::InvalidRoomId));
    assert_eq!(begin("936da01f-9abd-4d9d-80c7"), Err(Failure::InvalidRoomId));
}

#[test]
fn a_created_room_makes_the_session_with_an_empty_room() {
    let progress =
        Pending::Create.settle(Some(ServerEvent::RoomCreated { room_id: ROOM, user_id: USER }));
    assert_eq!(
        progress,
        Progress::Established {
            session: SessionIdentity { user_id: USER, room_id: ROOM },
            room: Room { id: ROOM, pixels: vec![] },
        }
    );
}

#[test]
fn a_creating_handshake_waits_through_everything_else() {
    let others = vec![
        None,
        Some(ServerEvent::RoomNotFound),
        Some(ServerEvent::RoomJoined { room: joined_room(), user_id: USER }),
        Some(ServerEvent::PeerDraw {
            user_id: USER,
            pixel: Pixel { x: 1, y: 1, colour: PixelColour::Red },
        }),
        Some(ServerEvent::PeerReset { user_id: USER }),
    ];
    for event in others {
        assert_eq!(Pending::Create.settle(event), Progress::Waiting);
    }
}

#[test]
fn a_joined_room_makes_the_session_with_its_snapshot() {
    let pending = Pending::Join { room_id: ROOM };
    let progress =
        pending.settle(Some(ServerEvent::RoomJoined { room: joined_room(), user_id: USER }));
    assert_eq!(
        progress,
        Progress::Established {
            session: SessionIdentity { user_id: USER, room_id: ROOM },
            room: joined_room(),
        }
    );
}

#[test]
fn an_unknown_room_makes_no_session() {
    let pending = Pending::Join { room_id: ROOM };
    assert_eq!(pending.settle(Some(ServerEvent::RoomNotFound)), Progress::RoomUnknown);
    assert_eq!(pending.advance(&Frame::Text("\"RoomNotFound\"".to_string())), Progress::RoomUnknown);
}

#[test]
fn a_joining_handshake_fails_on_anything_else() {
    let pending = Pending::Join { room_id: ROOM };
    let others = vec![
        None,
        Some(ServerEvent::RoomCreated { room_id: ROOM, user_id: USER }),
        Some(ServerEvent::PeerDraw {
            user_id: USER,
            pixel: Pixel { x: 1, y: 1, colour: PixelColour::Red },
        }),
        Some(ServerEvent::PeerReset { user_id: USER }),
    ];
    for event in others {
        assert_eq!(pending.settle(event), Progress::Failed(Failure::ProtocolViolation));
    }
}

#[test]
fn the_end_of_the_connection_fails_the_handshake() {
    assert_eq!(
        Pending::Create.advance(&Frame::Closed),
        Progress::Failed(Failure::ConnectionError)
    );
    assert_eq!(
        Pending::Join { room_id: ROOM }.advance(&Frame::Closed),
        Progress::Failed(Failure::ConnectionError)
    );
}

#[test]
fn frames_without_text_are_waited_through() {
    assert_eq!(Pending::Create.advance(&Frame::Other), Progress::Waiting);
    assert_eq!(Pending::Join { room_id: ROOM }.advance(&Frame::Other), Progress::Waiting);
}

#[test]
fn text_frames_are_read_and_settled() {
    let created = Frame::Text(
        "{\"RoomCreated\":{\"room_id\":\"936da01f-9abd-4d9d-80c7-02af85c822a8\",\
         \"user_id\":\"550e8400-e29b-41d4-a716-446655440000\"}}"
            .to_string(),
    );
    assert_eq!(
        Pending::Create.advance(&created),
        Progress::Established {
            session: SessionIdentity { user_id: USER, room_id: ROOM },
            room: Room { id: ROOM, pixels: vec![] },
        }
    );
    assert_eq!(
        Pending::Join { room_id: ROOM }.advance(&created),
        Progress::Failed(Failure::ProtocolViolation)
    );
    let joined = Frame::Text(
        "{\"RoomJoined\":{\"room\":{\"id\":\"936da01f-9abd-4d9d-80c7-02af85c822a8\",\
         \"pixels\":[{\"x\":0,\"y\":0,\"colour\":\"White\"},{\"x\":0,\"y\":0,\"colour\":\"Red\"}]},\
         \"user_id\":\"550e8400-e29b-41d4-a716-446655440000\"}}"
            .to_string(),
    );
    assert_eq!(
        Pending::Join { room_id: ROOM }.advance(&joined),
        Progress::Established {
            session: SessionIdentity { user_id: USER, room_id: ROOM },
            room: joined_room(),
        }
    );
    assert_eq!(Pending::Create.advance(&joined), Progress::Waiting);
}

#[test]
fn undecodable_text_is_waited_through_or_fails_by_the_flow() {
    let garbage = Frame::Text("{".to_string());
    assert_eq!(Pending::Create.advance(&garbage), Progress::Waiting);
    assert_eq!(
        Pending::Join { room_id: ROOM }.advance(&garbage),
        Progress::Failed(Failure::ProtocolViolation)
    );
}

#[test]
fn joining_needs_an_identifier() {
    assert_eq!(join(Some(ROOM)), Ok(Pending::Join { room_id: ROOM }));
    assert_eq!(join(None), Err(Failure::InvalidRoomId));
}
