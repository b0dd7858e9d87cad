//! What the dispatch loop of a connection decides.
//!
//! The loop itself waits for frames and for the consumer, which is not work
//! for this crate. What it decides is here: each frame is answered on its
//! own, in the order of arrival, and nothing is answered once the stream is
//! closed.

use vstd::prelude::*;
use crate::fault::DecodeError;
use crate::socket::event::WebsocketEvent;
use crate::wire::{decode, decodes_to};

verus! {

/// What is to be done with one frame.
#[derive(Clone, Debug, PartialEq, Eq)]
pub enum Dispatch {
    /// The frame holds this event: hand it to the consumer.
    Deliver(WebsocketEvent),
    /// The frame could not be decoded: report the failure and go on with the
    /// next frame.
    Report(DecodeError),
}

impl Dispatch {
    /// Whether this is the answer to a frame with the given text: the event
    /// that the text decodes to, or the report of why it does not.
    pub open spec fn answers(self, text: Seq<char>) -> bool {
        match self {
            Dispatch::Deliver(event) => decodes_to::<WebsocketEvent>(text, Ok(event)),
            Dispatch::Report(error) => decodes_to::<WebsocketEvent>(text, Err(error)),
        }
    }
}

/// Answers one frame.
pub fn dispatch_frame(frame: &str) -> (r: Dispatch)
    ensures
        r.answers(frame@),
{
    match decode::<WebsocketEvent>(frame) {
        Ok(event) => Dispatch::Deliver(event),
        Err(error) => Dispatch::Report(error),
    }
}

/// Answers the frames of a stream: one answer for each frame, in the order
/// of the frames, each decided by its own frame alone. A frame that cannot
/// be decoded changes nothing for the frames after it.
pub fn dispatch_frames(frames: &Vec<String>) -> (r: Vec<Dispatch>)
    ensures
        r.len() == frames.len(),
        forall|i: int| 0 <= i < frames.len() ==> (#[trigger] r[i]).answers(frames[i]@),
{
    let mut out: Vec<Dispatch> = Vec::new();
    let mut i: usize = 0;
    while i < frames.len()
        invariant
            i <= frames.len(),
            out.len() == i,
            forall|j: int| 0 <= j < i ==> (#[trigger] out[j]).answers(frames[j]@),
        decreases frames.len() - i,
    {
        out.push(dispatch_frame(frames[i].as_str()));
        i += 1;
    }
    out
}

/// The dispatch point of one connection.
///
/// A connection starts open. While it is open every frame is answered; once
/// the transport has closed the stream, no frame is, and nothing opens it
/// again.
#[derive(Clone, Copy, Debug, PartialEq, Eq)]
pub struct Dispatcher {
    closed: bool,
}

impl Dispatcher {
    /// Whether the stream has been closed.
    pub closed spec fn is_closed(&self) -> bool {
        self.closed
    }

    /// The dispatch point of a new connection.
    pub fn new() -> (r: Dispatcher)
        ensures
            !r.is_closed(),
    {
        Dispatcher { closed: false }
    }

    /// Whether the stream has been closed.
    pub fn closed(&self) -> (r: bool)
        ensures
            r == self.is_closed(),
    {
        self.closed
    }

    /// Records that the transport has closed the stream.
    pub fn close(&mut self)
        ensures
            final(self).is_closed(),
    {
        self.closed = true;
    }

    /// Answers a frame, or gives `None` where the stream has been closed.
    pub fn on_frame(&self, frame: &str) -> (r: Option<Dispatch>)
        ensures
            match r {
                Some(d) => !self.is_closed() && d.answers(frame@),
                None => self.is_closed(),
            },
    {
        if self.closed {
            None
        } else {
            Some(dispatch_frame(frame))
        }
    }
}

} // verus!
