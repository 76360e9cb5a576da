//! The wire format: which JSON document stands for which message.
//!
//! A message without a payload is the text of its name. A message with a
//! payload is an object whose only member stands under the message's name.
//! A structured payload is an object that holds its fields by name; members
//! under other names are passed over.

use crate::colour::PixelColour;
use crate::ident::{hyphenated_text, uuid_of_text, Uuid};
use crate::json::{
    array_value, empty_object, items_of, member, member_count, member_of, natural_of,
    natural_value, parse_json, parsed_json, render_json, rendered_json, set_member, text_of,
    text_value, value_doc, value_docs, Doc,
};
use crate::model::{ClientCommand, EventView, Pixel, Room, RoomView, ServerEvent, event_view};
use vstd::prelude::*;

verus! {

/// The name under which a colour travels.
pub open spec fn colour_tag(colour: PixelColour) -> Seq<char> {
    match colour {
        PixelColour::Clear => "Clear"@,
        PixelColour::White => "White"@,
        PixelColour::DarkRed => "DarkRed"@,
        PixelColour::Red => "Red"@,
        PixelColour::DarkBlue => "DarkBlue"@,
        PixelColour::Blue => "Blue"@,
        PixelColour::DarkGreen => "DarkGreen"@,
        PixelColour::Green => "Green"@,
        PixelColour::DarkYellow => "DarkYellow"@,
        PixelColour::Yellow => "Yellow"@,
        PixelColour::DarkMagenta => "DarkMagenta"@,
        PixelColour::Magenta => "Magenta"@,
        PixelColour::DarkGrey => "DarkGrey"@,
        PixelColour::Grey => "Grey"@,
        PixelColour::Black => "Black"@,
    }
}

/// The colour that travels under a name, if the name is that of a colour.
pub open spec fn tag_colour(tag: Seq<char>) -> Option<PixelColour> {
    if tag == "Clear"@ {
        Some(PixelColour::Clear)
    } else if tag == "White"@ {
        Some(PixelColour::White)
    } else if tag == "DarkRed"@ {
        Some(PixelColour::DarkRed)
    } else if tag == "Red"@ {
        Some(PixelColour::Red)
    } else if tag == "DarkBlue"@ {
        Some(PixelColour::DarkBlue)
    } else if tag == "Blue"@ {
        Some(PixelColour::Blue)
    } else if tag == "DarkGreen"@ {
        Some(PixelColour::DarkGreen)
    } else if tag == "Green"@ {
        Some(PixelColour::Green)
    } else if tag == "DarkYellow"@ {
        Some(PixelColour::DarkYellow)
    } else if tag == "Yellow"@ {
        Some(PixelColour::Yellow)
    } else if tag == "DarkMagenta"@ {
        Some(PixelColour::DarkMagenta)
    } else if tag == "Magenta"@ {
        Some(PixelColour::Magenta)
    } else if tag == "DarkGrey"@ {
        Some(PixelColour::DarkGrey)
    } else if tag == "Grey"@ {
        Some(PixelColour::Grey)
    } else if tag == "Black"@ {
        Some(PixelColour::Black)
    } else {
        None
    }
}

/// Every colour is read back from its own name.
pub proof fn colour_tag_round_trip(colour: PixelColour)
    ensures
        tag_colour(colour_tag(colour)) == Some(colour),
{
    reveal_strlit("Clear");
    reveal_strlit("White");
    reveal_strlit("DarkRed");
    reveal_strlit("Red");
    reveal_strlit("DarkBlue");
    reveal_strlit("Blue");
    reveal_strlit("DarkGreen");
    reveal_strlit("Green");
    reveal_strlit("DarkYellow");
    reveal_strlit("Yellow");
    reveal_strlit("DarkMagenta");
    reveal_strlit("Magenta");
    reveal_strlit("DarkGrey");
    reveal_strlit("Grey");
    reveal_strlit("Black");
    assert("Clear"@.len() == 5 && "Clear"@[0] == 'C');
    assert("White"@.len() == 5 && "White"@[0] == 'W');
    assert("DarkRed"@.len() == 7 && "DarkRed"@[0] == 'D');
    assert("Red"@.len() == 3 && "Red"@[0] == 'R');
    assert("DarkBlue"@.len() == 8 && "DarkBlue"@[0] == 'D');
    assert("Blue"@.len() == 4 && "Blue"@[0] == 'B');
    assert("DarkGreen"@.len() == 9 && "DarkGreen"@[0] == 'D');
    assert("Green"@.len() == 5 && "Green"@[0] == 'G');
    assert("DarkYellow"@.len() == 10 && "DarkYellow"@[0] == 'D');
    assert("Yellow"@.len() == 6 && "Yellow"@[0] == 'Y');
    assert("DarkMagenta"@.len() == 11 && "DarkMagenta"@[0] == 'D');
    assert("Magenta"@.len() == 7 && "Magenta"@[0] == 'M');
    assert("DarkGrey"@.len() == 8 && "DarkGrey"@[0] == 'D');
    assert("Grey"@.len() == 4 && "Grey"@[0] == 'G');
    assert("Black"@.len() == 5 && "Black"@[0] == 'B');
    assert("DarkBlue"@[4] == 'B' && "DarkGrey"@[4] == 'G');
}

/// Whether two texts are the same sequence of characters.
fn same_text(a: &str, b: &str) -> (same: bool)
    ensures
        same == (a@ == b@),
{
    let left = a.to_owned();
    let right = b.to_owned();
    left == right
}

/// The name under which a colour travels.
pub fn colour_name(colour: PixelColour) -> (name: &'static str)
    ensures
        name@ == colour_tag(colour),
{
    match colour {
        PixelColour::Clear => "Clear",
        PixelColour::White => "White",
        PixelColour::DarkRed => "DarkRed",
        PixelColour::Red => "Red",
        PixelColour::DarkBlue => "DarkBlue",
        PixelColour::Blue => "Blue",
        PixelColour::DarkGreen => "DarkGreen",
        PixelColour::Green => "Green",
        PixelColour::DarkYellow => "DarkYellow",
        PixelColour::Yellow => "Yellow",
        PixelColour::DarkMagenta => "DarkMagenta",
        PixelColour::Magenta => "Magenta",
        PixelColour::DarkGrey => "DarkGrey",
        PixelColour::Grey => "Grey",
        PixelColour::Black => "Black",
    }
}

/// Reads a colour from its name.
pub fn colour_from_name(name: &str) -> (colour: Option<PixelColour>)
    ensures
        colour == tag_colour(name@),
{
    if same_text(name, "Clear") {
        Some(PixelColour::Clear)
    } else if same_text(name, "White") {
        Some(PixelColour::White)
    } else if same_text(name, "DarkRed") {
        Some(PixelColour::DarkRed)
    } else if same_text(name, "Red") {
        Some(PixelColour::Red)
    } else if same_text(name, "DarkBlue") {
        Some(PixelColour::DarkBlue)
    } else if same_text(name, "Blue") {
        Some(PixelColour::Blue)
    } else if same_text(name, "DarkGreen") {
        Some(PixelColour::DarkGreen)
    } else if same_text(name, "Green") {
        Some(PixelColour::Green)
    } else if same_text(name, "DarkYellow") {
        Some(PixelColour::DarkYellow)
    } else if same_text(name, "Yellow") {
        Some(PixelColour::Yellow)
    } else if same_text(name, "DarkMagenta") {
        Some(PixelColour::DarkMagenta)
    } else if same_text(name, "Magenta") {
        Some(PixelColour::Magenta)
    } else if same_text(name, "DarkGrey") {
        Some(PixelColour::DarkGrey)
    } else if same_text(name, "Grey") {
        Some(PixelColour::Grey)
    } else if same_text(name, "Black") {
        Some(PixelColour::Black)
    } else {
        None
    }
}

/// The number below 2^32 that a document holds.
pub open spec fn doc_u32(doc: Option<Doc>) -> Option<u32> {
    match doc {
        Some(Doc::Natural(n)) => if n <= u32::MAX {
            Some(n as u32)
        } else {
            None
        },
        _ => None,
    }
}

/// The identifier that a document holds as text.
pub open spec fn doc_uuid(doc: Option<Doc>) -> Option<Uuid> {
    match doc {
        Some(Doc::Text(text)) => uuid_of_text(text),
        _ => None,
    }
}

/// The colour that a document holds by name.
pub open spec fn doc_colour(doc: Option<Doc>) -> Option<PixelColour> {
    match doc {
        Some(Doc::Text(tag)) => tag_colour(tag),
        _ => None,
    }
}

/// The document of a pixel: an object with the members `x`, `y` and
/// `colour`.
pub open spec fn pixel_doc(pixel: Pixel) -> Doc {
    Doc::Object(
        Map::empty().insert("x"@, Doc::Natural(pixel.x as u64)).insert(
            "y"@,
            Doc::Natural(pixel.y as u64),
        ).insert("colour"@, Doc::Text(colour_tag(pixel.colour))),
    )
}

/// The pixel that a document holds.
pub open spec fn doc_pixel(doc: Option<Doc>) -> Option<Pixel> {
    match doc {
        Some(d) => match (
            doc_u32(member_of(d, "x"@)),
            doc_u32(member_of(d, "y"@)),
            doc_colour(member_of(d, "colour"@)),
        ) {
            (Some(x), Some(y), Some(colour)) => Some(Pixel { x, y, colour }),
            _ => None,
        },
        None => None,
    }
}

/// The names of a pixel's members differ from one another.
proof fn pixel_keys_differ()
    ensures
        "x"@ != "y"@,
        "x"@ != "colour"@,
        "y"@ != "colour"@,
{
    reveal_strlit("x");
    reveal_strlit("y");
    reveal_strlit("colour");
    assert("x"@.len() == 1 && "x"@[0] == 'x');
    assert("y"@.len() == 1 && "y"@[0] == 'y');
    assert("colour"@.len() == 6);
}

/// A pixel is read back from its own document.
pub proof fn pixel_round_trip(pixel: Pixel)
    ensures
        doc_pixel(Some(pixel_doc(pixel))) == Some(pixel),
{
    pixel_keys_differ();
    colour_tag_round_trip(pixel.colour);
}

/// The document of a value that may be missing.
pub open spec fn doc_of(value: Option<&serde_json::Value>) -> Option<Doc> {
    match value {
        Some(v) => Some(value_doc(*v)),
        None => None,
    }
}

fn decode_u32(value: Option<&serde_json::Value>) -> (number: Option<u32>)
    ensures
        number == doc_u32(doc_of(value)),
{
    match value {
        Some(v) => match natural_of(v) {
            Some(n) => if n <= 0xffff_ffff {
                Some(n as u32)
            } else {
                None
            },
            None => None,
        },
        None => None,
    }
}

fn decode_uuid(value: Option<&serde_json::Value>) -> (id: Option<Uuid>)
    ensures
        id == doc_uuid(doc_of(value)),
{
    match value {
        Some(v) => match text_of(v) {
            Some(text) => Uuid::parse(text),
            None => None,
        },
        None => None,
    }
}

fn decode_colour(value: Option<&serde_json::Value>) -> (colour: Option<PixelColour>)
    ensures
        colour == doc_colour(doc_of(value)),
{
    match value {
        Some(v) => match text_of(v) {
            Some(text) => colour_from_name(text),
            None => None,
        },
        None => None,
    }
}

/// Reads a pixel from a value: an object that holds two numbers below 2^32
/// under `x` and `y` and the name of a colour under `colour`.
pub fn decode_pixel(value: &serde_json::Value) -> (pixel: Option<Pixel>)
    ensures
        pixel == doc_pixel(Some(value_doc(*value))),
{
    let x = decode_u32(member(value, "x"));
    let y = decode_u32(member(value, "y"));
    let colour = decode_colour(member(value, "colour"));
    match (x, y, colour) {
        (Some(x), Some(y), Some(colour)) => Some(Pixel { x, y, colour }),
        _ => None,
    }
}

/// Writes a pixel as a value. `decode_pixel` reads the same pixel back from
/// it.
pub fn encode_pixel(pixel: &Pixel) -> (value: serde_json::Value)
    ensures
        value_doc(value) == pixel_doc(*pixel),
        doc_pixel(Some(value_doc(value))) == Some(*pixel),
{
    let mut object = empty_object();
    set_member(&mut object, "x", natural_value(pixel.x as u64));
    set_member(&mut object, "y", natural_value(pixel.y as u64));
    set_member(&mut object, "colour", text_value(colour_name(pixel.colour).to_owned()));
    proof {
        pixel_round_trip(*pixel);
    }
    object
}

/// The document of a message with a payload: an object whose only member
/// stands under the message's name.
pub open spec fn tagged(tag: Seq<char>, payload: Doc) -> Doc {
    Doc::Object(Map::empty().insert(tag, payload))
}

/// The payload of a message of the given name: the only member of an
/// object, where it stands under that name.
pub open spec fn payload_of(doc: Doc, tag: Seq<char>) -> Option<Doc> {
    match doc {
        Doc::Object(members) => if members.dom().finite() && members.dom().len() == 1 {
            member_of(doc, tag)
        } else {
            None
        },
        _ => None,
    }
}

/// The payload of a tagged document is read back under its own name and
/// under no other.
proof fn tagged_payload(tag: Seq<char>, payload: Doc, other: Seq<char>)
    ensures
        payload_of(tagged(tag, payload), tag) == Some(payload),
        other != tag ==> payload_of(tagged(tag, payload), other).is_none(),
        !(tagged(tag, payload) is Text),
{
    let members = Map::<Seq<char>, Doc>::empty().insert(tag, payload);
    assert(members.dom() =~= Set::<Seq<char>>::empty().insert(tag));
}

fn payload<'a>(value: &'a serde_json::Value, tag: &str) -> (found: Option<&'a serde_json::Value>)
    ensures
        doc_of(found) == payload_of(value_doc(*value), tag@),
{
    match member_count(value) {
        Some(count) => if count == 1 {
            member(value, tag)
        } else {
            None
        },
        None => None,
    }
}

fn tagged_value(tag: &str, payload: serde_json::Value) -> (value: serde_json::Value)
    ensures
        value_doc(value) == tagged(tag@, value_doc(payload)),
{
    let mut object = empty_object();
    set_member(&mut object, tag, payload);
    object
}

/// The document of a command.
pub open spec fn command_doc(command: ClientCommand) -> Doc {
    match command {
        ClientCommand::CreateRoom => Doc::Text("CreateRoom"@),
        ClientCommand::JoinRoom(room_id) => tagged(
            "JoinRoom"@,
            Doc::Text(hyphenated_text(room_id.0)),
        ),
        ClientCommand::Draw(pixel) => tagged("Draw"@, pixel_doc(pixel)),
        ClientCommand::Reset => Doc::Text("Reset"@),
    }
}

/// The command that a document stands for, if it stands for one.
pub open spec fn doc_command(doc: Doc) -> Option<ClientCommand> {
    if doc == Doc::Text("CreateRoom"@) {
        Some(ClientCommand::CreateRoom)
    } else if doc == Doc::Text("Reset"@) {
        Some(ClientCommand::Reset)
    } else if payload_of(doc, "JoinRoom"@) is Some {
        match doc_uuid(payload_of(doc, "JoinRoom"@)) {
            Some(room_id) => Some(ClientCommand::JoinRoom(room_id)),
            None => None,
        }
    } else if payload_of(doc, "Draw"@) is Some {
        match doc_pixel(payload_of(doc, "Draw"@)) {
            Some(pixel) => Some(ClientCommand::Draw(pixel)),
            None => None,
        }
    } else {
        None
    }
}

/// Whether an identifier's hyphenated form is read back as that identifier.
spec fn reads_back(id: Uuid) -> bool {
    uuid_of_text(hyphenated_text(id.0)) == Some(id)
}

proof fn command_names_differ()
    ensures
        "CreateRoom"@ != "Reset"@,
        "JoinRoom"@ != "Draw"@,
{
    reveal_strlit("CreateRoom");
    reveal_strlit("Reset");
    reveal_strlit("JoinRoom");
    reveal_strlit("Draw");
    assert("CreateRoom"@.len() == 10 && "Reset"@.len() == 5);
    assert("JoinRoom"@.len() == 8 && "Draw"@.len() == 4);
}

proof fn command_round_trip(command: ClientCommand)
    requires
        command matches ClientCommand::JoinRoom(room_id) ==> reads_back(room_id),
    ensures
        doc_command(command_doc(command)) == Some(command),
{
    command_names_differ();
    match command {
        ClientCommand::JoinRoom(room_id) => {
            tagged_payload("JoinRoom"@, Doc::Text(hyphenated_text(room_id.0)), "Draw"@);
        },
        ClientCommand::Draw(pixel) => {
            tagged_payload("Draw"@, pixel_doc(pixel), "JoinRoom"@);
            pixel_round_trip(pixel);
        },
        _ => {},
    }
}

/// Writes a command as a value. `decode_command` reads the same command
/// back from it.
pub fn encode_command(command: &ClientCommand) -> (value: serde_json::Value)
    ensures
        value_doc(value) == command_doc(*command),
        doc_command(value_doc(value)) == Some(*command),
{
    let value = match command {
        ClientCommand::CreateRoom => text_value("CreateRoom".to_owned()),
        ClientCommand::JoinRoom(room_id) => tagged_value("JoinRoom", text_value(room_id.to_text())),
        ClientCommand::Draw(pixel) => tagged_value("Draw", encode_pixel(pixel)),
        ClientCommand::Reset => text_value("Reset".to_owned()),
    };
    proof {
        command_round_trip(*command);
    }
    value
}

/// Reads a command from a value.
pub fn decode_command(value: &serde_json::Value) -> (command: Option<ClientCommand>)
    ensures
        command == doc_command(value_doc(*value)),
{
    if let Some(name) = text_of(value) {
        if same_text(name, "CreateRoom") {
            Some(ClientCommand::CreateRoom)
        } else if same_text(name, "Reset") {
            Some(ClientCommand::Reset)
        } else {
            None
        }
    } else if let Some(room_id) = payload(value, "JoinRoom") {
        match decode_uuid(Some(room_id)) {
            Some(room_id) => Some(ClientCommand::JoinRoom(room_id)),
            None => None,
        }
    } else if let Some(pixel) = payload(value, "Draw") {
        match decode_pixel(pixel) {
            Some(pixel) => Some(ClientCommand::Draw(pixel)),
            None => None,
        }
    } else {
        None
    }
}

/// The documents of a sequence of pixels.
pub open spec fn pixel_docs(pixels: Seq<Pixel>) -> Seq<Doc> {
    Seq::new(pixels.len(), |i: int| pixel_doc(pixels[i]))
}

/// The pixels that a document holds: an array of pixels, in its order.
pub open spec fn doc_pixels(doc: Option<Doc>) -> Option<Seq<Pixel>> {
    match doc {
        Some(Doc::Array(items)) => if forall|i: int|
            0 <= i < items.len() ==> (#[trigger] doc_pixel(Some(items[i]))) is Some {
            Some(Seq::new(items.len(), |i: int| doc_pixel(Some(items[i]))->0))
        } else {
            None
        },
        _ => None,
    }
}

/// The document of a room: an object with the members `id` and `pixels`.
pub open spec fn room_doc(room: RoomView) -> Doc {
    Doc::Object(
        Map::empty().insert("id"@, Doc::Text(hyphenated_text(room.id.0))).insert(
            "pixels"@,
            Doc::Array(pixel_docs(room.pixels)),
        ),
    )
}

/// The room that a document holds.
pub open spec fn doc_room(doc: Option<Doc>) -> Option<RoomView> {
    match doc {
        Some(d) => match (doc_uuid(member_of(d, "id"@)), doc_pixels(member_of(d, "pixels"@))) {
            (Some(id), Some(pixels)) => Some(RoomView { id, pixels }),
            _ => None,
        },
        None => None,
    }
}

/// An object of one member that holds an identifier as text.
pub open spec fn one_id_doc(key: Seq<char>, id: Uuid) -> Doc {
    Doc::Object(Map::empty().insert(key, Doc::Text(hyphenated_text(id.0))))
}

/// The document of an event.
pub open spec fn event_doc(event: EventView) -> Doc {
    match event {
        EventView::RoomCreated { room_id, user_id } => tagged(
            "RoomCreated"@,
            Doc::Object(
                Map::empty().insert("room_id"@, Doc::Text(hyphenated_text(room_id.0))).insert(
                    "user_id"@,
                    Doc::Text(hyphenated_text(user_id.0)),
                ),
            ),
        ),
        EventView::RoomJoined { room, user_id } => tagged(
            "RoomJoined"@,
            Doc::Object(
                Map::empty().insert("room"@, room_doc(room)).insert(
                    "user_id"@,
                    Doc::Text(hyphenated_text(user_id.0)),
                ),
            ),
        ),
        EventView::RoomNotFound => Doc::Text("RoomNotFound"@),
        EventView::PeerDraw { user_id, pixel } => tagged(
            "PeerDraw"@,
            Doc::Object(
                Map::empty().insert("user_id"@, Doc::Text(hyphenated_text(user_id.0))).insert(
                    "pixel"@,
                    pixel_doc(pixel),
                ),
            ),
        ),
        EventView::PeerReset { user_id } => tagged("PeerReset"@, one_id_doc("user_id"@, user_id)),
    }
}

/// The event that the payload of a `RoomCreated` message holds.
pub open spec fn doc_room_created(payload: Doc) -> Option<EventView> {
    match (doc_uuid(member_of(payload, "room_id"@)), doc_uuid(member_of(payload, "user_id"@))) {
        (Some(room_id), Some(user_id)) => Some(EventView::RoomCreated { room_id, user_id }),
        _ => None,
    }
}

/// The event that the payload of a `RoomJoined` message holds.
pub open spec fn doc_room_joined(payload: Doc) -> Option<EventView> {
    match (doc_room(member_of(payload, "room"@)), doc_uuid(member_of(payload, "user_id"@))) {
        (Some(room), Some(user_id)) => Some(EventView::RoomJoined { room, user_id }),
        _ => None,
    }
}

/// The event that the payload of a `PeerDraw` message holds.
pub open spec fn doc_peer_draw(payload: Doc) -> Option<EventView> {
    match (doc_uuid(member_of(payload, "user_id"@)), doc_pixel(member_of(payload, "pixel"@))) {
        (Some(user_id), Some(pixel)) => Some(EventView::PeerDraw { user_id, pixel }),
        _ => None,
    }
}

/// The event that the payload of a `PeerReset` message holds.
pub open spec fn doc_peer_reset(payload: Doc) -> Option<EventView> {
    match doc_uuid(member_of(payload, "user_id"@)) {
        Some(user_id) => Some(EventView::PeerReset { user_id }),
        None => None,
    }
}

/// The event that a document stands for, if it stands for one.
pub open spec fn doc_event(doc: Doc) -> Option<EventView> {
    if doc == Doc::Text("RoomNotFound"@) {
        Some(EventView::RoomNotFound)
    } else if payload_of(doc, "RoomCreated"@) is Some {
        doc_room_created(payload_of(doc, "RoomCreated"@)->0)
    } else if payload_of(doc, "RoomJoined"@) is Some {
        doc_room_joined(payload_of(doc, "RoomJoined"@)->0)
    } else if payload_of(doc, "PeerDraw"@) is Some {
        doc_peer_draw(payload_of(doc, "PeerDraw"@)->0)
    } else if payload_of(doc, "PeerReset"@) is Some {
        doc_peer_reset(payload_of(doc, "PeerReset"@)->0)
    } else {
        None
    }
}

proof fn event_names_differ()
    ensures
        "RoomCreated"@ != "RoomJoined"@,
        "RoomCreated"@ != "PeerDraw"@,
        "RoomCreated"@ != "PeerReset"@,
        "RoomJoined"@ != "PeerDraw"@,
        "RoomJoined"@ != "PeerReset"@,
        "PeerDraw"@ != "PeerReset"@,
        "room_id"@ != "user_id"@,
        "room"@ != "user_id"@,
        "pixel"@ != "user_id"@,
        "id"@ != "pixels"@,
{
    reveal_strlit("RoomCreated");
    reveal_strlit("RoomJoined");
    reveal_strlit("PeerDraw");
    reveal_strlit("PeerReset");
    reveal_strlit("room_id");
    reveal_strlit("user_id");
    reveal_strlit("room");
    reveal_strlit("pixel");
    reveal_strlit("id");
    reveal_strlit("pixels");
    assert("RoomCreated"@.len() == 11 && "RoomJoined"@.len() == 10);
    assert("PeerDraw"@.len() == 8 && "PeerReset"@.len() == 9);
    assert("room_id"@.len() == 7 && "room_id"@[0] == 'r');
    assert("user_id"@.len() == 7 && "user_id"@[0] == 'u');
    assert("room"@.len() == 4 && "pixel"@.len() == 5);
    assert("id"@.len() == 2 && "pixels"@.len() == 6);
}

/// Pixels are read back from their own documents, in their order.
pub proof fn pixels_round_trip(pixels: Seq<Pixel>)
    ensures
        doc_pixels(Some(Doc::Array(pixel_docs(pixels)))) == Some(pixels),
{
    let items = pixel_docs(pixels);
    assert forall|i: int| 0 <= i < items.len() implies doc_pixel(Some(items[i])) == Some(
        pixels[i],
    ) by {
        pixel_round_trip(pixels[i]);
    }
    assert(Seq::new(items.len(), |i: int| doc_pixel(Some(items[i]))->0) =~= pixels);
}

/// Whether the hyphenated form of each identifier of an event is read back
/// as that identifier.
spec fn event_reads_back(event: EventView) -> bool {
    match event {
        EventView::RoomCreated { room_id, user_id } => reads_back(room_id) && reads_back(user_id),
        EventView::RoomJoined { room, user_id } => reads_back(room.id) && reads_back(user_id),
        EventView::RoomNotFound => true,
        EventView::PeerDraw { user_id, pixel } => reads_back(user_id),
        EventView::PeerReset { user_id } => reads_back(user_id),
    }
}

proof fn event_round_trip(event: EventView)
    requires
        event_reads_back(event),
    ensures
        doc_event(event_doc(event)) == Some(event),
{
    event_names_differ();
    match event {
        EventView::RoomCreated { room_id, user_id } => {
            let payload = Doc::Object(
                Map::empty().insert("room_id"@, Doc::Text(hyphenated_text(room_id.0))).insert(
                    "user_id"@,
                    Doc::Text(hyphenated_text(user_id.0)),
                ),
            );
            tagged_payload("RoomCreated"@, payload, "RoomJoined"@);
        },
        EventView::RoomJoined { room, user_id } => {
            let payload = Doc::Object(
                Map::empty().insert("room"@, room_doc(room)).insert(
                    "user_id"@,
                    Doc::Text(hyphenated_text(user_id.0)),
                ),
            );
            tagged_payload("RoomJoined"@, payload, "RoomCreated"@);
            pixels_round_trip(room.pixels);
            assert(doc_room(Some(room_doc(room))) == Some(room));
        },
        EventView::RoomNotFound => {},
        EventView::PeerDraw { user_id, pixel } => {
            let payload = Doc::Object(
                Map::empty().insert("user_id"@, Doc::Text(hyphenated_text(user_id.0))).insert(
                    "pixel"@,
                    pixel_doc(pixel),
                ),
            );
            tagged_payload("PeerDraw"@, payload, "RoomCreated"@);
            tagged_payload("PeerDraw"@, payload, "RoomJoined"@);
            pixel_round_trip(pixel);
        },
        EventView::PeerReset { user_id } => {
            let payload = one_id_doc("user_id"@, user_id);
            tagged_payload("PeerReset"@, payload, "RoomCreated"@);
            tagged_payload("PeerReset"@, payload, "RoomJoined"@);
            tagged_payload("PeerReset"@, payload, "PeerDraw"@);
        },
    }
}

fn decode_pixels(value: Option<&serde_json::Value>) -> (pixels: Option<Vec<Pixel>>)
    ensures
        match pixels {
            Some(list) => doc_pixels(doc_of(value)) == Some(list@),
            None => doc_pixels(doc_of(value)).is_none(),
        },
{
    let items = match value {
        Some(v) => match items_of(v) {
            Some(items) => items,
            None => {
                return None;
            },
        },
        None => {
            return None;
        },
    };
    let ghost docs = value_docs(items@);
    let mut pixels: Vec<Pixel> = Vec::new();
    let mut i: usize = 0;
    while i < items.len()
        invariant
            i <= items.len(),
            pixels@.len() == i,
            docs == value_docs(items@),
            doc_of(value) == Some(Doc::Array(docs)),
            forall|k: int| 0 <= k < i ==> doc_pixel(Some(#[trigger] docs[k])) == Some(pixels@[k]),
        decreases items.len() - i,
    {
        match decode_pixel(&items[i]) {
            Some(pixel) => {
                pixels.push(pixel);
            },
            None => {
                assert(doc_pixel(Some(docs[i as int])).is_none());
                return None;
            },
        }
        i += 1;
    }
    assert(Seq::new(docs.len(), |k: int| doc_pixel(Some(docs[k]))->0) =~= pixels@);
    Some(pixels)
}

fn decode_room(value: Option<&serde_json::Value>) -> (room: Option<Room>)
    ensures
        match room {
            Some(r) => doc_room(doc_of(value)) == Some(r@),
            None => doc_room(doc_of(value)).is_none(),
        },
{
    match value {
        Some(v) => {
            let id = decode_uuid(member(v, "id"));
            let pixels = decode_pixels(member(v, "pixels"));
            match (id, pixels) {
                (Some(id), Some(pixels)) => Some(Room { id, pixels }),
                _ => None,
            }
        },
        None => None,
    }
}

fn encode_room(room: &Room) -> (value: serde_json::Value)
    ensures
        value_doc(value) == room_doc(room@),
        reads_back(room.id),
{
    let mut items: Vec<serde_json::Value> = Vec::new();
    let mut i: usize = 0;
    while i < room.pixels.len()
        invariant
            i <= room.pixels.len(),
            items@.len() == i,
            forall|k: int| 0 <= k < i ==> value_doc(#[trigger] items@[k]) == pixel_doc(room.pixels@[k]),
        decreases room.pixels.len() - i,
    {
        items.push(encode_pixel(&room.pixels[i]));
        i += 1;
    }
    assert(value_docs(items@) =~= pixel_docs(room.pixels@));
    let mut object = empty_object();
    set_member(&mut object, "id", text_value(room.id.to_text()));
    set_member(&mut object, "pixels", array_value(items));
    object
}

/// Writes an event as a value. `decode_event` reads the same event back
/// from it.
pub fn encode_event(event: &ServerEvent) -> (value: serde_json::Value)
    ensures
        value_doc(value) == event_doc(event@),
        doc_event(value_doc(value)) == Some(event@),
{
    let value = match event {
        ServerEvent::RoomCreated { room_id, user_id } => {
            let mut payload = empty_object();
            set_member(&mut payload, "room_id", text_value(room_id.to_text()));
            set_member(&mut payload, "user_id", text_value(user_id.to_text()));
            tagged_value("RoomCreated", payload)
        },
        ServerEvent::RoomJoined { room, user_id } => {
            let mut payload = empty_object();
            set_member(&mut payload, "room", encode_room(room));
            set_member(&mut payload, "user_id", text_value(user_id.to_text()));
            tagged_value("RoomJoined", payload)
        },
        ServerEvent::RoomNotFound => text_value("RoomNotFound".to_owned()),
        ServerEvent::PeerDraw { user_id, pixel } => {
            let mut payload = empty_object();
            set_member(&mut payload, "user_id", text_value(user_id.to_text()));
            set_member(&mut payload, "pixel", encode_pixel(pixel));
            tagged_value("PeerDraw", payload)
        },
        ServerEvent::PeerReset { user_id } => {
            let mut payload = empty_object();
            set_member(&mut payload, "user_id", text_value(user_id.to_text()));
            tagged_value("PeerReset", payload)
        },
    };
    proof {
        event_round_trip(event@);
    }
    value
}

/// Reads an event from a value.
pub fn decode_event(value: &serde_json::Value) -> (event: Option<ServerEvent>)
    ensures
        event_view(event) == doc_event(value_doc(*value)),
{
    if let Some(name) = text_of(value) {
        if same_text(name, "RoomNotFound") {
            Some(ServerEvent::RoomNotFound)
        } else {
            None
        }
    } else if let Some(payload) = payload(value, "RoomCreated") {
        let room_id = decode_uuid(member(payload, "room_id"));
        let user_id = decode_uuid(member(payload, "user_id"));
        match (room_id, user_id) {
            (Some(room_id), Some(user_id)) => Some(ServerEvent::RoomCreated { room_id, user_id }),
            _ => None,
        }
    } else if let Some(payload) = payload(value, "RoomJoined") {
        let room = decode_room(member(payload, "room"));
        let user_id = decode_uuid(member(payload, "user_id"));
        match (room, user_id) {
            (Some(room), Some(user_id)) => Some(ServerEvent::RoomJoined { room, user_id }),
            _ => None,
        }
    } else if let Some(payload) = payload(value, "PeerDraw") {
        let user_id = decode_uuid(member(payload, "user_id"));
        let pixel = match member(payload, "pixel") {
            Some(p) => decode_pixel(p),
            None => None,
        };
        match (user_id, pixel) {
            (Some(user_id), Some(pixel)) => Some(ServerEvent::PeerDraw { user_id, pixel }),
            _ => None,
        }
    } else if let Some(payload) = payload(value, "PeerReset") {
        match decode_uuid(member(payload, "user_id")) {
            Some(user_id) => Some(ServerEvent::PeerReset { user_id }),
            None => None,
        }
    } else {
        None
    }
}

/// The command that a text stands for: that of the document it is read as.
pub open spec fn text_command(text: Seq<char>) -> Option<ClientCommand> {
    match parsed_json(text) {
        Some(doc) => doc_command(doc),
        None => None,
    }
}

/// The event that a text stands for: that of the document it is read as.
pub open spec fn text_event(text: Seq<char>) -> Option<EventView> {
    match parsed_json(text) {
        Some(doc) => doc_event(doc),
        None => None,
    }
}

/// Writes a command as the text of one frame.
pub fn command_to_text(command: &ClientCommand) -> (text: String)
    ensures
        text@ == rendered_json(command_doc(*command)),
{
    let value = encode_command(command);
    render_json(&value)
}

/// Reads a command from the text of one frame.
pub fn command_from_text(text: &str) -> (command: Option<ClientCommand>)
    ensures
        command == text_command(text@),
{
    match parse_json(text) {
        Some(value) => decode_command(&value),
        None => None,
    }
}

/// Writes an event as the text of one frame.
pub fn event_to_text(event: &ServerEvent) -> (text: String)
    ensures
        text@ == rendered_json(event_doc(event@)),
{
    let value = encode_event(event);
    render_json(&value)
}

/// Reads an event from the text of one frame.
pub fn event_from_text(text: &str) -> (event: Option<ServerEvent>)
    ensures
        event_view(event) == text_event(text@),
{
    match parse_json(text) {
        Some(value) => decode_event(&value),
        None => None,
    }
}

} // verus!
