//! The processing of inbound frames: the events of other users are painted,
//! the echoes of the local user's own changes are not.

use crate::model::{EventView, Frame, ServerEvent, SessionIdentity, event_view};
use crate::terminal::{clear_canvas, clear_ops, pixel_ops, render_pixel, Screen, TermOp};
use crate::wire::{event_from_text, text_event};
use vstd::prelude::*;

verus! {

/// The operations with which an event is applied to the canvas. A change
/// that the local user made was painted when it was made, and is passed
/// over; so is every event that is no change to the canvas.
pub open spec fn event_ops(session: SessionIdentity, event: EventView) -> Seq<TermOp> {
    match event {
        EventView::PeerDraw { user_id, pixel } => if user_id == session.user_id {
            Seq::empty()
        } else {
            pixel_ops(pixel)
        },
        EventView::PeerReset { user_id } => if user_id == session.user_id {
            Seq::empty()
        } else {
            clear_ops()
        },
        _ => Seq::empty(),
    }
}

/// The operations with which what a frame was read as is applied: none
/// where it was read as no event.
pub open spec fn decoded_ops(session: SessionIdentity, event: Option<EventView>) -> Seq<TermOp> {
    match event {
        Some(e) => event_ops(session, e),
        None => Seq::empty(),
    }
}

/// What a frame is read as: a text as the event it stands for, any other
/// frame as none.
pub open spec fn frame_event(frame: Frame) -> Option<EventView> {
    match frame {
        Frame::Text(text) => text_event(text@),
        _ => None,
    }
}

/// Whether a frame is a text that stands for no event.
pub open spec fn is_undecodable(frame: Frame) -> bool {
    frame is Text && frame_event(frame).is_none()
}

/// A counter after one more count; it stays at its greatest value.
pub open spec fn counted(count: u64) -> u64 {
    if count < u64::MAX {
        (count + 1) as u64
    } else {
        count
    }
}

/// An event that carries the local user's own identifier changes nothing
/// on the screen.
pub proof fn echo_is_suppressed(session: SessionIdentity, event: EventView, screen: Screen)
    requires
        match event {
            EventView::PeerDraw { user_id, pixel } => user_id == session.user_id,
            EventView::PeerReset { user_id } => user_id == session.user_id,
            _ => false,
        },
    ensures
        event_ops(session, event) == Seq::<TermOp>::empty(),
        screen.run(event_ops(session, event)) == screen,
{
}

/// The operations with which an event is applied to the canvas.
pub fn apply_event(session: &SessionIdentity, event: &ServerEvent) -> (ops: Vec<TermOp>)
    ensures
        ops@ == event_ops(*session, event@),
{
    match event {
        ServerEvent::PeerDraw { user_id, pixel } => {
            if *user_id == session.user_id {
                Vec::new()
            } else {
                render_pixel(pixel)
            }
        },
        ServerEvent::PeerReset { user_id } => {
            if *user_id == session.user_id {
                Vec::new()
            } else {
                clear_canvas()
            }
        },
        _ => Vec::new(),
    }
}

/// What the processor does with one frame.
#[derive(Clone, Debug, PartialEq, Eq)]
pub struct InboundStep {
    /// The operations to run on the terminal, in their order.
    pub ops: Vec<TermOp>,
    /// Whether the processor goes on to the next frame.
    pub running: bool,
}

/// The processor of inbound frames.
#[derive(Clone, Copy, Debug, PartialEq, Eq, Structural)]
pub struct Inbound {
    /// The identity of the local session.
    pub session: SessionIdentity,
    /// The number of text frames that stood for no event.
    pub dropped: u64,
}

impl Inbound {
    /// A processor that has dropped no frame.
    pub fn new(session: SessionIdentity) -> (inbound: Inbound)
        ensures
            inbound.session == session,
            inbound.dropped == 0,
    {
        Inbound { session, dropped: 0 }
    }

    /// Takes what a text frame was read as: an event is applied, and a
    /// text that stood for none is counted and passed over.
    pub fn on_decoded(&mut self, event: Option<ServerEvent>) -> (ops: Vec<TermOp>)
        ensures
            ops@ == decoded_ops(old(self).session, event_view(event)),
            final(self).session == old(self).session,
            final(self).dropped == if event.is_none() {
                counted(old(self).dropped)
            } else {
                old(self).dropped
            },
    {
        match event {
            Some(e) => apply_event(&self.session, &e),
            None => {
                if self.dropped < u64::MAX {
                    self.dropped = self.dropped + 1;
                }
                Vec::new()
            },
        }
    }

    /// Takes one frame. A text is read as an event and applied; a frame
    /// without text is passed over; the end of the connection ends the
    /// processing.
    pub fn on_frame(&mut self, frame: &Frame) -> (step: InboundStep)
        ensures
            step.running == !(frame is Closed),
            step.ops@ == decoded_ops(old(self).session, frame_event(*frame)),
            final(self).session == old(self).session,
            final(self).dropped == if is_undecodable(*frame) {
                counted(old(self).dropped)
            } else {
                old(self).dropped
            },
    {
        match frame {
            Frame::Text(text) => {
                let event = event_from_text(text.as_str());
                let ops = self.on_decoded(event);
                InboundStep { ops, running: true }
            },
            Frame::Other => InboundStep { ops: Vec::new(), running: true },
            Frame::Closed => InboundStep { ops: Vec::new(), running: false },
        }
    }
}

} // verus!
