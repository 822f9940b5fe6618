//! What a carrier's socket delivers.

use crate::plivo::{WsIn, WsInV};
use vstd::prelude::*;

verus! {

/// What came from a carrier's socket.
#[derive(Debug)]
pub enum CarrierFrame {
    Text(String),
    Binary(Vec<u8>),
    Close,
    /// A ping or a pong.
    Keepalive,
    /// The socket failed.
    Failed,
    /// The socket is at its end.
    End,
}

/// What to make of it.
#[derive(Debug)]
pub enum Received {
    /// Hand it on.
    Deliver(WsIn),
    /// Read again.
    Again,
    /// There is nothing more.
    Over,
}

/// The view of a [`Received`].
#[verifier::ext_equal]
pub enum ReceivedV {
    Deliver(WsInV),
    Again,
    Over,
}

impl View for Received {
    type V = ReceivedV;

    open spec fn view(&self) -> ReceivedV {
        match self {
            Received::Deliver(m) => ReceivedV::Deliver(m@),
            Received::Again => ReceivedV::Again,
            Received::Over => ReceivedV::Over,
        }
    }
}

/// What a carrier frame comes to: keepalives are never media, and a failure is
/// the end of the call like a close by the peer.
pub open spec fn reception(frame: CarrierFrame) -> ReceivedV {
    match frame {
        CarrierFrame::Text(t) => ReceivedV::Deliver(WsInV::Text(t@)),
        CarrierFrame::Binary(b) => ReceivedV::Deliver(WsInV::Binary(b@)),
        CarrierFrame::Close | CarrierFrame::Failed => ReceivedV::Deliver(WsInV::Close),
        CarrierFrame::Keepalive => ReceivedV::Again,
        CarrierFrame::End => ReceivedV::Over,
    }
}

/// What to make of a carrier frame.
pub fn receive(frame: CarrierFrame) -> (r: Received)
    ensures
        r@ == reception(frame),
{
    match frame {
        CarrierFrame::Text(t) => Received::Deliver(WsIn::Text(t)),
        CarrierFrame::Binary(b) => Received::Deliver(WsIn::Binary(b)),
        CarrierFrame::Close => Received::Deliver(WsIn::Close),
        CarrierFrame::Keepalive => Received::Again,
        CarrierFrame::Failed => Received::Deliver(WsIn::Close),
        CarrierFrame::End => Received::Over,
    }
}

} // verus!
