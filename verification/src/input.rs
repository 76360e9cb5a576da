//! The reactions to terminal input: drawing and erasing with the mouse,
//! choosing the active colour, clearing the canvas and quitting.

use crate::colour::PixelColour;
use crate::model::{ClientCommand, Pixel};
use crate::terminal::{
    addressable, clear_canvas, clear_ops, pixel_ops, render_pixel, TermOp,
};
use vstd::prelude::*;

verus! {

/// How long the loop waits for an event of the terminal before it looks
/// again, in milliseconds.
pub const POLL_INTERVAL_MILLIS: u64 = 100;

/// A button of the mouse.
#[derive(Clone, Copy, Debug, PartialEq, Eq, Structural, Hash)]
pub enum MouseButton {
    Left,
    Right,
    Middle,
}

/// What the mouse did.
#[derive(Clone, Copy, Debug, PartialEq, Eq, Structural, Hash)]
pub enum MouseAction {
    /// A button was pressed.
    Down(MouseButton),
    /// The mouse moved with a button held.
    Drag(MouseButton),
    /// Anything else: a release, a move without a button, the wheel.
    Other,
}

/// A key of the keyboard.
#[derive(Clone, Copy, Debug, PartialEq, Eq, Structural, Hash)]
pub enum Key {
    /// A key that stands for a character.
    Char(char),
    /// Any other key.
    Other,
}

/// One event of the terminal.
#[derive(Clone, Copy, Debug, PartialEq, Eq, Structural, Hash)]
pub enum InputEvent {
    /// The mouse did something on a cell.
    Mouse { action: MouseAction, column: u16, row: u16 },
    /// An event of a key, with or without the control and the alt key.
    Key { key: Key, control: bool, alt: bool },
    /// Anything else: a resize, a paste, the focus.
    Other,
}

/// One thing to do in reaction to an event.
#[derive(Clone, Copy, Debug, PartialEq, Eq, Structural, Hash)]
pub enum Effect {
    /// Run an operation on the terminal.
    Terminal(TermOp),
    /// Send a command to the server.
    Send(ClientCommand),
    /// Leave the loop.
    Quit,
}

/// The state of the input loop.
#[derive(Clone, Copy, Debug, PartialEq, Eq, Structural, Hash)]
pub struct InputState {
    /// The colour that the left button draws with.
    pub colour: PixelColour,
    /// Whether the loop is still running.
    pub running: bool,
}

/// The colour that a digit key selects: `1` to `8` select a hue, and with
/// the modifier `2` to `7` select its dark shade.
pub open spec fn digit_colour(digit: char, dark: bool) -> Option<PixelColour> {
    if digit == '1' {
        Some(PixelColour::White)
    } else if digit == '2' {
        Some(if dark { PixelColour::DarkRed } else { PixelColour::Red })
    } else if digit == '3' {
        Some(if dark { PixelColour::DarkBlue } else { PixelColour::Blue })
    } else if digit == '4' {
        Some(if dark { PixelColour::DarkGreen } else { PixelColour::Green })
    } else if digit == '5' {
        Some(if dark { PixelColour::DarkYellow } else { PixelColour::Yellow })
    } else if digit == '6' {
        Some(if dark { PixelColour::DarkMagenta } else { PixelColour::Magenta })
    } else if digit == '7' {
        Some(if dark { PixelColour::DarkGrey } else { PixelColour::Grey })
    } else if digit == '8' {
        Some(PixelColour::Black)
    } else {
        None
    }
}

/// The pixel that a mouse event draws: on the event's cell, in the active
/// colour, or in `Clear` with the right button.
pub open spec fn drawn_pixel(colour: PixelColour, event: InputEvent) -> Option<Pixel> {
    match event {
        InputEvent::Mouse { action: MouseAction::Down(button), column, row }
        | InputEvent::Mouse { action: MouseAction::Drag(button), column, row } => Some(
            Pixel {
                x: column as u32,
                y: row as u32,
                colour: if button == MouseButton::Right {
                    PixelColour::Clear
                } else {
                    colour
                },
            },
        ),
        _ => None,
    }
}

/// Whether an event is the key that quits.
pub open spec fn is_quit(event: InputEvent) -> bool {
    event matches InputEvent::Key { key: Key::Char(c), .. } && c == 'q'
}

/// Whether an event is the key combination that clears the canvas.
pub open spec fn is_clear(event: InputEvent) -> bool {
    event matches InputEvent::Key { key: Key::Char(c), control, .. } && c == 'l' && control
}

/// The colour that is active after an event.
pub open spec fn next_colour(colour: PixelColour, event: InputEvent) -> PixelColour {
    match event {
        InputEvent::Key { key: Key::Char(c), control, alt } => match digit_colour(c, alt) {
            Some(selected) => selected,
            None => colour,
        },
        _ => colour,
    }
}

/// The operations of a sequence as effects on the terminal.
pub open spec fn terminal_effects(ops: Seq<TermOp>) -> Seq<Effect> {
    Seq::new(ops.len(), |i: int| Effect::Terminal(ops[i]))
}

/// What a running loop does in reaction to an event. A drawn pixel is
/// painted first and sent then; so is the clearing of the canvas.
pub open spec fn event_effects(colour: PixelColour, event: InputEvent) -> Seq<Effect> {
    if drawn_pixel(colour, event) is Some {
        let pixel = drawn_pixel(colour, event)->0;
        terminal_effects(pixel_ops(pixel)).push(Effect::Send(ClientCommand::Draw(pixel)))
    } else if is_quit(event) {
        seq![Effect::Quit]
    } else if is_clear(event) {
        terminal_effects(clear_ops()).push(Effect::Send(ClientCommand::Reset))
    } else {
        Seq::empty()
    }
}

/// One turn of the loop: the state after an event, and what is done in
/// reaction to it. Once the loop has quit, an event changes nothing and
/// nothing is done.
pub open spec fn step(state: InputState, event: InputEvent) -> (InputState, Seq<Effect>) {
    if state.running {
        (
            InputState { colour: next_colour(state.colour, event), running: !is_quit(event) },
            event_effects(state.colour, event),
        )
    } else {
        (state, Seq::empty())
    }
}

/// The turns of the loop for a sequence of events: the state after the
/// last of them, and all that is done, in its order.
pub open spec fn replay(state: InputState, events: Seq<InputEvent>) -> (InputState, Seq<Effect>)
    decreases events.len(),
{
    if events.len() == 0 {
        (state, Seq::empty())
    } else {
        let (reached, done) = replay(state, events.drop_last());
        let (next, reaction) = step(reached, events.last());
        (next, done + reaction)
    }
}

/// The colour that a digit key selects.
pub fn select_colour(digit: char, dark: bool) -> (colour: Option<PixelColour>)
    ensures
        colour == digit_colour(digit, dark),
{
    if digit == '1' {
        Some(PixelColour::White)
    } else if digit == '2' {
        Some(if dark { PixelColour::DarkRed } else { PixelColour::Red })
    } else if digit == '3' {
        Some(if dark { PixelColour::DarkBlue } else { PixelColour::Blue })
    } else if digit == '4' {
        Some(if dark { PixelColour::DarkGreen } else { PixelColour::Green })
    } else if digit == '5' {
        Some(if dark { PixelColour::DarkYellow } else { PixelColour::Yellow })
    } else if digit == '6' {
        Some(if dark { PixelColour::DarkMagenta } else { PixelColour::Magenta })
    } else if digit == '7' {
        Some(if dark { PixelColour::DarkGrey } else { PixelColour::Grey })
    } else if digit == '8' {
        Some(PixelColour::Black)
    } else {
        None
    }
}

fn effects_of(ops: Vec<TermOp>, command: ClientCommand) -> (effects: Vec<Effect>)
    ensures
        effects@ == terminal_effects(ops@).push(Effect::Send(command)),
{
    let mut effects: Vec<Effect> = Vec::new();
    let mut i: usize = 0;
    while i < ops.len()
        invariant
            i <= ops.len(),
            effects@ == terminal_effects(ops@.take(i as int)),
        decreases ops.len() - i,
    {
        effects.push(Effect::Terminal(ops[i]));
        i += 1;
        assert(effects@ =~= terminal_effects(ops@.take(i as int)));
    }
    assert(ops@.take(i as int) =~= ops@);
    effects.push(Effect::Send(command));
    effects
}

impl InputState {
    /// The state at the start of the loop: white is active.
    pub fn new() -> (state: InputState)
        ensures
            state.colour == PixelColour::White,
            state.running,
    {
        InputState { colour: PixelColour::White, running: true }
    }

    /// Takes one event of the terminal and hands back what to do, in the
    /// order in which to do it. Once the loop has quit, nothing is done
    /// for any further event.
    pub fn handle(&mut self, event: &InputEvent) -> (effects: Vec<Effect>)
        ensures
            *final(self) == step(*old(self), *event).0,
            effects@ == step(*old(self), *event).1,
    {
        if !self.running {
            return Vec::new();
        }
        match *event {
            InputEvent::Mouse { action, column, row } => {
                let button = match action {
                    MouseAction::Down(button) => button,
                    MouseAction::Drag(button) => button,
                    MouseAction::Other => {
                        return Vec::new();
                    },
                };
                let colour = if button == MouseButton::Right {
                    PixelColour::Clear
                } else {
                    self.colour
                };
                let pixel = Pixel { x: column as u32, y: row as u32, colour };
                effects_of(render_pixel(&pixel), ClientCommand::Draw(pixel))
            },
            InputEvent::Key { key: Key::Char(c), control, alt } => {
                if c == 'q' {
                    self.running = false;
                    let mut effects: Vec<Effect> = Vec::new();
                    effects.push(Effect::Quit);
                    assert(effects@ =~= seq![Effect::Quit]);
                    effects
                } else if c == 'l' && control {
                    effects_of(clear_canvas(), ClientCommand::Reset)
                } else {
                    match select_colour(c, alt) {
                        Some(selected) => {
                            self.colour = selected;
                        },
                        None => {},
                    }
                    Vec::new()
                }
            },
            _ => Vec::new(),
        }
    }
}

/// What the mouse draws lies on a cell that the terminal can address, so
/// that it is painted where it is drawn.
pub proof fn drawn_pixel_is_painted(colour: PixelColour, event: InputEvent)
    requires
        drawn_pixel(colour, event) is Some,
    ensures
        addressable(drawn_pixel(colour, event)->0),
        pixel_ops(drawn_pixel(colour, event)->0).len() == 4,
        event_effects(colour, event).len() == 5,
{
}

/// Whatever colour is active, the right button draws in `Clear`.
pub proof fn right_button_erases(colour: PixelColour, event: InputEvent)
    requires
        event matches InputEvent::Mouse { action, .. } && (action == MouseAction::Down(
            MouseButton::Right,
        ) || action == MouseAction::Drag(MouseButton::Right)),
    ensures
        drawn_pixel(colour, event) is Some,
        drawn_pixel(colour, event)->0.colour == PixelColour::Clear,
        event_effects(colour, event).last() == Effect::Send(
            ClientCommand::Draw(drawn_pixel(colour, event)->0),
        ),
{
}

/// A pixel drawn after a digit key has the colour that the key selects.
pub proof fn drawing_uses_selected_colour(
    colour: PixelColour,
    digit: char,
    dark: bool,
    control: bool,
    draw: InputEvent,
)
    requires
        digit_colour(digit, dark) is Some,
        draw matches InputEvent::Mouse { action, .. } && (action == MouseAction::Down(
            MouseButton::Left,
        ) || action == MouseAction::Drag(MouseButton::Left)),
    ensures
        drawn_pixel(
            next_colour(colour, InputEvent::Key { key: Key::Char(digit), control, alt: dark }),
            draw,
        )->0.colour == digit_colour(digit, dark)->0,
{
}

/// What is drawn is painted before it is sent: the command is the last
/// effect, and every effect before it is an operation on the terminal.
pub proof fn painting_precedes_sending(colour: PixelColour, event: InputEvent, i: int)
    requires
        0 <= i < event_effects(colour, event).len(),
        event_effects(colour, event)[i] is Send,
    ensures
        i == event_effects(colour, event).len() - 1,
        forall|k: int| 0 <= k < i ==> event_effects(colour, event)[k] is Terminal,
{
}

/// The quit key stops a running loop: quitting is all that is done for it,
/// and the loop runs no more.
pub proof fn quit_key_stops_the_loop(state: InputState, event: InputEvent)
    requires
        state.running,
        is_quit(event),
    ensures
        step(state, event).1 == seq![Effect::Quit],
        !step(state, event).0.running,
        step(state, event).0.colour == state.colour,
{
}

/// The loop quits at most once, and does nothing after it: whatever the
/// events, quitting can only be the last thing done, and it is done where
/// the loop has stopped running.
pub proof fn loop_quits_once(state: InputState, events: Seq<InputEvent>, i: int)
    requires
        0 <= i < replay(state, events).1.len(),
        replay(state, events).1[i] is Quit,
    ensures
        i == replay(state, events).1.len() - 1,
        state.running,
        !replay(state, events).0.running,
    decreases events.len(),
{
    if events.len() > 0 {
        let (reached, done) = replay(state, events.drop_last());
        let (next, reaction) = step(reached, events.last());
        if i < done.len() {
            assert((done + reaction)[i] == done[i]);
            loop_quits_once(state, events.drop_last(), i);
            assert(reaction.len() == 0);
        } else {
            assert((done + reaction)[i] == reaction[i - done.len()]);
            assert(reached.running);
            assert(reaction =~= seq![Effect::Quit]);
            running_loop_was_running(state, events.drop_last());
        }
    }
}

/// A loop that is still running was running from the start.
proof fn running_loop_was_running(state: InputState, events: Seq<InputEvent>)
    requires
        replay(state, events).0.running,
    ensures
        state.running,
    decreases events.len(),
{
    if events.len() > 0 {
        running_loop_was_running(state, events.drop_last());
    }
}

} // verus!
