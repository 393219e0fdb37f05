//! The two pumps of a room, as decisions on one input at a time.
//!
//! Ingress reads socket frames and publishes envelopes on the bus; egress
//! reads the bus and writes frames to the socket. The caller performs each
//! action and stops the pump where the action says so.

use vstd::prelude::*;
use crate::bus::BusEvent;
use crate::codec::{decode, decoded, encode, encoding};
use crate::envelope::{EnvelopeView, WSMessage};
use crate::supervisor::PumpEnd;

verus! {

/// What a read from the socket gave.
pub enum InboundFrame {
    /// A text frame.
    Text(String),
    /// A close frame.
    Close,
    /// A binary, ping or pong frame.
    Other,
    /// The read failed, or the stream ended.
    ReadError,
}

/// What ingress does with a frame.
#[derive(Debug)]
pub enum IngressAction {
    /// Publish this envelope and go on.
    Publish(WSMessage),
    /// The text was no envelope: drop it and go on.
    Drop,
    /// Publish a close request, then stop: the room closes.
    PublishClose,
    /// Ignore the frame and go on.
    Ignore,
    /// Stop: the socket failed.
    Stop,
}

/// What egress does with what the bus gave.
#[derive(Debug)]
pub enum EgressAction {
    /// Write this text frame and go on.
    WriteText(String),
    /// Show this error report to the user and go on.
    Surface(String),
    /// Write a close frame, then stop: the room closes.
    WriteClose,
    /// The envelope has no wire text (a malformed time stamp): skip it and go
    /// on.
    Skip,
    /// The subscriber lagged: move it to the bus's tail and go on.
    Resubscribe,
    /// Nothing to write yet: go on.
    Idle,
    /// Stop: the bus is gone.
    Stop,
}

impl IngressAction {
    /// Why the pump ends after this action, if it does.
    pub open spec fn end_spec(&self) -> Option<PumpEnd> {
        match self {
            IngressAction::PublishClose => Some(PumpEnd::CloseSeen),
            IngressAction::Stop => Some(PumpEnd::TransportError),
            _ => None,
        }
    }

    pub fn end(&self) -> (r: Option<PumpEnd>)
        ensures
            r == self.end_spec(),
    {
        match self {
            IngressAction::PublishClose => Some(PumpEnd::CloseSeen),
            IngressAction::Stop => Some(PumpEnd::TransportError),
            _ => None,
        }
    }
}

impl EgressAction {
    /// Why the pump ends after this action, if it does. A bus that is gone
    /// means the room was removed: no reconnect.
    pub open spec fn end_spec(&self) -> Option<PumpEnd> {
        match self {
            EgressAction::WriteClose => Some(PumpEnd::CloseSeen),
            EgressAction::Stop => Some(PumpEnd::CloseSeen),
            _ => None,
        }
    }

    pub fn end(&self) -> (r: Option<PumpEnd>)
        ensures
            r == self.end_spec(),
    {
        match self {
            EgressAction::WriteClose => Some(PumpEnd::CloseSeen),
            EgressAction::Stop => Some(PumpEnd::CloseSeen),
            _ => None,
        }
    }
}

/// Ingress: a text frame that decodes is published, one that does not is
/// dropped; a close frame becomes a published close request and ends the pump;
/// other frames are ignored; a failed read ends the pump.
pub fn ingress_step(frame: InboundFrame) -> (r: IngressAction)
    ensures
        match frame {
            InboundFrame::Text(t) => match decoded(t@) {
                Some(e) => r matches IngressAction::Publish(m) && m@ == e,
                None => r is Drop,
            },
            InboundFrame::Close => r is PublishClose,
            InboundFrame::Other => r is Ignore,
            InboundFrame::ReadError => r is Stop,
        },
{
    match frame {
        InboundFrame::Text(t) => match decode(t.as_str()) {
            Some(e) => IngressAction::Publish(e),
            None => IngressAction::Drop,
        },
        InboundFrame::Close => IngressAction::PublishClose,
        InboundFrame::Other => IngressAction::Ignore,
        InboundFrame::ReadError => IngressAction::Stop,
    }
}

/// Egress, after a write to the socket: a failed write ends the pump, and
/// the supervisor reconnects.
pub fn egress_after_write(written: bool) -> (r: Option<PumpEnd>)
    ensures
        r == if written {
            None::<PumpEnd>
        } else {
            Some(PumpEnd::TransportError)
        },
{
    if written {
        None
    } else {
        Some(PumpEnd::TransportError)
    }
}

/// Egress: well-formed chat lines and presence updates are written as their
/// wire text, malformed ones are skipped;
/// error reports go to the user; a close request is written as a close frame
/// and ends the pump; a lag moves the subscriber to the tail; a bus that is
/// gone ends the pump.
pub fn egress_step(ev: BusEvent) -> (r: EgressAction)
    ensures
        match ev {
            BusEvent::Item(e) => match e@ {
                EnvelopeView::Error(m) => r matches EgressAction::Surface(s) && s@ == m,
                EnvelopeView::Close => r is WriteClose,
                _ => if e@.wf() {
                    r matches EgressAction::WriteText(t) && t@ == encoding(e@)
                } else {
                    r is Skip
                },
            },
            BusEvent::Lagged(_) => r is Resubscribe,
            BusEvent::Empty => r is Idle,
            BusEvent::Closed => r is Stop,
        },
{
    match ev {
        BusEvent::Item(e) => match e {
            WSMessage::Error(m) => EgressAction::Surface(m),
            WSMessage::Close => EgressAction::WriteClose,
            _ => if e.is_valid() {
                EgressAction::WriteText(encode(&e))
            } else {
                EgressAction::Skip
            },
        },
        BusEvent::Lagged(_) => EgressAction::Resubscribe,
        BusEvent::Empty => EgressAction::Idle,
        BusEvent::Closed => EgressAction::Stop,
    }
}

} // verus!
