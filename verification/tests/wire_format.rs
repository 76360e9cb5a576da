use termdraw::colour::PixelColour;
use termdraw::ident::Uuid;
use termdraw::model::{ClientCommand, Pixel, Room, ServerEvent};
use termdraw::wire::{
    colour_from_name, colour_name, command_from_text, command_to_text, decode_command,
    decode_event, decode_pixel, encode_command, encode_event, encode_pixel, event_from_text,
    event_to_text,
};

const ROOM: Uuid = Uuid(0x936da01f_9abd_4d9d_80c7_02af85c822a8);
const USER: Uuid = Uuid(0x550e8400_e29b_41d4_a716_446655440000);

fn all_colours() -> Vec<PixelColour> {
    vec![
        PixelColour::Clear,
        PixelColour::White,
        PixelColour::DarkRed,
        PixelColour::Red,
        PixelColour::DarkBlue,
        PixelColour::Blue,
        PixelColour::DarkGreen,
        PixelColour::Green,
        PixelColour::DarkYellow,
        PixelColour::Yellow,
        PixelColour::DarkMagenta,
        PixelColour::Magenta,
        PixelColour::DarkGrey,
        PixelColour::Grey,
        PixelColour::Black,
    ]
}

fn all_commands() -> Vec<ClientCommand> {
    vec![
        ClientCommand::CreateRoom,
        ClientCommand::JoinRoom(ROOM),
        ClientCommand::Draw(Pixel { x: 0, y: 0, colour: PixelColour::White }),
        ClientCommand::Draw(Pixel { x: u32::MAX, y: 7, colour: PixelColour::DarkMagenta }),
        ClientCommand::Reset,
    ]
}

fn all_events() -> Vec<ServerEvent> {
    vec![
        ServerEvent::RoomCreated { room_id: ROOM, user_id: USER },
        ServerEvent::RoomJoined { room: Room { id: ROOM, pixels: vec![] }, user_id: USER },
        ServerEvent::RoomJoined {
            room: Room {
                id: ROOM,
                pixels: vec![
                    Pixel { x: 0, y: 0, colour: PixelColour::White },
                    Pixel { x: 0, y: 0, colour: PixelColour::Red },
                    Pixel { x: 79, y: 23, colour: PixelColour::Clear },
                ],
            },
            user_id: USER,
        },
        ServerEvent::RoomNotFound,
        ServerEvent::PeerDraw {
            user_id: USER,
            pixel: Pixel { x: 12, y: 34, colour: PixelColour::DarkGrey },
        },
        ServerEvent::PeerReset { user_id: USER },
    ]
}

#[test]
fn colour_names_are_the_names_of_the_colours() {
    assert_eq!(colour_name(PixelColour::Clear), "Clear");
    assert_eq!(colour_name(PixelColour::White), "White");
    assert_eq!(colour_name(PixelColour::DarkRed), "DarkRed");
    assert_eq!(colour_name(PixelColour::Red), "Red");
    assert_eq!(colour_name(PixelColour::DarkBlue), "DarkBlue");
    assert_eq!(colour_name(PixelColour::Blue), "Blue");
    assert_eq!(colour_name(PixelColour::DarkGreen), "DarkGreen");
    assert_eq!(colour_name(PixelColour::Green), "Green");
    assert_eq!(colour_name(PixelColour::DarkYellow), "DarkYellow");
    assert_eq!(colour_name(PixelColour::Yellow), "Yellow");
    assert_eq!(colour_name(PixelColour::DarkMagenta), "DarkMagenta");
    assert_eq!(colour_name(PixelColour::Magenta), "Magenta");
    assert_eq!(colour_name(PixelColour::DarkGrey), "DarkGrey");
    assert_eq!(colour_name(PixelColour::Grey), "Grey");
    assert_eq!(colour_name(PixelColour::Black), "Black");
}

#[test]
fn colours_read_back_from_their_names() {
    for colour in all_colours() {
        assert_eq!(colour_from_name(colour_name(colour)), Some(colour));
    }
    assert_eq!(colour_from_name("Cyan"), None);
    assert_eq!(colour_from_name("white"), None);
    assert_eq!(colour_from_name(""), None);
}

#[test]
fn commands_are_written_as_compact_json() {
    assert_eq!(command_to_text(&ClientCommand::CreateRoom), "\"CreateRoom\"");
    assert_eq!(command_to_text(&ClientCommand::Reset), "\"Reset\"");
    assert_eq!(
        command_to_text(&ClientCommand::JoinRoom(ROOM)),
        "{\"JoinRoom\":\"936da01f-9abd-4d9d-80c7-02af85c822a8\"}"
    );
    assert_eq!(
        command_to_text(&ClientCommand::Draw(Pixel { x: 1, y: 2, colour: PixelColour::White })),
        "{\"Draw\":{\"colour\":\"White\",\"x\":1,\"y\":2}}"
    );
}

#[test]
fn events_are_written_as_compact_json() {
    assert_eq!(event_to_text(&ServerEvent::RoomNotFound), "\"RoomNotFound\"");
    assert_eq!(
        event_to_text(&ServerEvent::RoomCreated { room_id: ROOM, user_id: USER }),
        "{\"RoomCreated\":{\"room_id\":\"936da01f-9abd-4d9d-80c7-02af85c822a8\",\
         \"user_id\":\"550e8400-e29b-41d4-a716-446655440000\"}}"
    );
    assert_eq!(
        event_to_text(&ServerEvent::PeerReset { user_id: USER }),
        "{\"PeerReset\":{\"user_id\":\"550e8400-e29b-41d4-a716-446655440000\"}}"
    );
    assert_eq!(
        event_to_text(&ServerEvent::PeerDraw {
            user_id: USER,
            pixel: Pixel { x: 3, y: 4, colour: PixelColour::Blue },
        }),
        "{\"PeerDraw\":{\"pixel\":{\"colour\":\"Blue\",\"x\":3,\"y\":4},\
         \"user_id\":\"550e8400-e29b-41d4-a716-446655440000\"}}"
    );
    assert_eq!(
        event_to_text(&ServerEvent::RoomJoined {
            room: Room {
                id: ROOM,
                pixels: vec![
                    Pixel { x: 0, y: 0, colour: PixelColour::White },
                    Pixel { x: 0, y: 0, colour: PixelColour::Red },
                ],
            },
            user_id: USER,
        }),
        "{\"RoomJoined\":{\"room\":{\"id\":\"936da01f-9abd-4d9d-80c7-02af85c822a8\",\
         \"pixels\":[{\"colour\":\"White\",\"x\":0,\"y\":0},{\"colour\":\"Red\",\"x\":0,\"y\":0}]},\
         \"user_id\":\"550e8400-e29b-41d4-a716-446655440000\"}}"
    );
}

#[test]
fn every_command_survives_the_round_trip_through_text() {
    for command in all_commands() {
        assert_eq!(command_from_text(&command_to_text(&command)), Some(command));
    }
}

#[test]
fn every_event_survives_the_round_trip_through_text() {
    for event in all_events() {
        assert_eq!(event_from_text(&event_to_text(&event)), Some(event));
    }
}

#[test]
fn every_command_survives_the_round_trip_through_a_value() {
    for command in all_commands() {
        assert_eq!(decode_command(&encode_command(&command)), Some(command));
    }
}

#[test]
fn every_event_survives_the_round_trip_through_a_value() {
    for event in all_events() {
        assert_eq!(decode_event(&encode_event(&event)), Some(event));
    }
}

#[test]
fn every_pixel_colour_survives_the_round_trip() {
    for colour in all_colours() {
        let pixel = Pixel { x: 5, y: 6, colour };
        assert_eq!(decode_pixel(&encode_pixel(&pixel)), Some(pixel));
    }
}

#[test]
fn members_are_read_in_any_order_and_with_any_spacing() {
    assert_eq!(
        command_from_text(" { \"Draw\" : { \"x\" : 1, \"y\" : 2, \"colour\" : \"Green\" } } "),
        Some(ClientCommand::Draw(Pixel { x: 1, y: 2, colour: PixelColour::Green }))
    );
    assert_eq!(
        event_from_text(
            "{\"PeerDraw\":{\"user_id\":\"550e8400-e29b-41d4-a716-446655440000\",\
             \"pixel\":{\"y\":9,\"x\":8,\"colour\":\"Black\"}}}"
        ),
        Some(ServerEvent::PeerDraw {
            user_id: USER,
            pixel: Pixel { x: 8, y: 9, colour: PixelColour::Black },
        })
    );
}

#[test]
fn members_under_other_names_are_passed_over() {
    assert_eq!(
        event_from_text(
            "{\"PeerReset\":{\"user_id\":\"550e8400-e29b-41d4-a716-446655440000\",\"at\":17}}"
        ),
        Some(ServerEvent::PeerReset { user_id: USER })
    );
}

#[test]
fn identifiers_are_read_in_every_form() {
    assert_eq!(
        command_from_text("{\"JoinRoom\":\"936DA01F9ABD4D9D80C702AF85C822A8\"}"),
        Some(ClientCommand::JoinRoom(ROOM))
    );
}

#[test]
fn text_that_is_no_json_stands_for_nothing() {
    assert_eq!(event_from_text(""), None);
    assert_eq!(event_from_text("RoomNotFound"), None);
    assert_eq!(event_from_text("{\"PeerReset\":"), None);
    assert_eq!(command_from_text("\"Reset\" \"Reset\""), None);
}

#[test]
fn unknown_names_stand_for_nothing() {
    assert_eq!(event_from_text("\"roomnotfound\""), None);
    assert_eq!(event_from_text("\"Reset\""), None);
    assert_eq!(command_from_text("\"RoomNotFound\""), None);
    assert_eq!(event_from_text("{\"Draw\":{\"x\":1,\"y\":2,\"colour\":\"White\"}}"), None);
    assert_eq!(event_from_text("null"), None);
    assert_eq!(event_from_text("17"), None);
    assert_eq!(event_from_text("[\"RoomNotFound\"]"), None);
}

#[test]
fn a_message_object_has_one_member() {
    assert_eq!(
        event_from_text(
            "{\"PeerReset\":{\"user_id\":\"550e8400-e29b-41d4-a716-446655440000\"},\"more\":1}"
        ),
        None
    );
    assert_eq!(event_from_text("{}"), None);
}

#[test]
fn coordinates_are_whole_numbers_below_two_to_the_thirty_two() {
    assert_eq!(
        command_from_text("{\"Draw\":{\"x\":4294967295,\"y\":0,\"colour\":\"Red\"}}"),
        Some(ClientCommand::Draw(Pixel { x: 4294967295, y: 0, colour: PixelColour::Red }))
    );
    assert_eq!(command_from_text("{\"Draw\":{\"x\":4294967296,\"y\":0,\"colour\":\"Red\"}}"), None);
    assert_eq!(command_from_text("{\"Draw\":{\"x\":-1,\"y\":0,\"colour\":\"Red\"}}"), None);
    assert_eq!(command_from_text("{\"Draw\":{\"x\":1.5,\"y\":0,\"colour\":\"Red\"}}"), None);
    assert_eq!(command_from_text("{\"Draw\":{\"x\":\"1\",\"y\":0,\"colour\":\"Red\"}}"), None);
}

#[test]
fn a_pixel_needs_all_its_members() {
    assert_eq!(command_from_text("{\"Draw\":{\"x\":1,\"y\":0}}"), None);
    assert_eq!(command_from_text("{\"Draw\":{\"x\":1,\"colour\":\"Red\"}}"), None);
    assert_eq!(command_from_text("{\"Draw\":{\"y\":1,\"colour\":\"Red\"}}"), None);
    assert_eq!(command_from_text("{\"Draw\":{\"x\":1,\"y\":0,\"colour\":\"Pink\"}}"), None);
    assert_eq!(command_from_text("{\"Draw\":[1,0,\"Red\"]}"), None);
}

#[test]
fn an_event_needs_valid_identifiers() {
    assert_eq!(event_from_text("{\"PeerReset\":{\"user_id\":\"me\"}}"), None);
    assert_eq!(event_from_text("{\"PeerReset\":{\"user_id\":5}}"), None);
    assert_eq!(event_from_text("{\"PeerReset\":{}}"), None);
    assert_eq!(
        event_from_text(
            "{\"RoomCreated\":{\"room_id\":\"936da01f-9abd-4d9d-80c7-02af85c822a8\"}}"
        ),
        None
    );
}

#[test]
fn one_bad_pixel_spoils_the_room() {
    assert_eq!(
        event_from_text(
            "{\"RoomJoined\":{\"room\":{\"id\":\"936da01f-9abd-4d9d-80c7-02af85c822a8\",\
             \"pixels\":[{\"colour\":\"White\",\"x\":0,\"y\":0},{\"colour\":\"Red\",\"x\":0}]},\
             \"user_id\":\"550e8400-e29b-41d4-a716-446655440000\"}}"
        ),
        None
    );
    assert_eq!(
        event_from_text(
            "{\"RoomJoined\":{\"room\":{\"id\":\"936da01f-9abd-4d9d-80c7-02af85c822a8\",\
             \"pixels\":{}},\"user_id\":\"550e8400-e29b-41d4-a716-446655440000\"}}"
        ),
        None
    );
}

#[test]
fn values_are_decoded_as_their_text_is() {
    let value = serde_json::from_str::<serde_json::Value>(
        "{\"PeerDraw\":{\"user_id\":\"550e8400-e29b-41d4-a716-446655440000\",\
         \"pixel\":{\"x\":1,\"y\":2,\"colour\":\"Yellow\"}}}",
    )
    .expect("the text is valid");
    assert_eq!(
        decode_event(&value),
        Some(ServerEvent::PeerDraw {
            user_id: USER,
            pixel: Pixel { x: 1, y: 2, colour: PixelColour::Yellow },
        })
    );
    assert_eq!(decode_command(&value), None);
    assert_eq!(decode_pixel(&value), None);
}
