//! The first server's decision: which websocket frames it sends back to their sender.

use vstd::prelude::*;

verus! {

/// The kind of a websocket frame.
#[derive(Debug, Clone, Copy, PartialEq, Eq, Structural)]
pub enum FrameKind {
    /// A text message.
    Text,
    /// A binary message.
    Binary,
    /// A ping.
    Ping,
    /// A pong.
    Pong,
    /// A close frame.
    Close,
    /// A raw frame.
    Frame,
}

/// Whether the server sends a frame of this kind back to its sender: data frames, text or
/// binary, are echoed; control frames are not.
pub fn echoes(kind: FrameKind) -> (r: bool)
    ensures
        r == (kind is Text || kind is Binary),
{
    match kind {
        FrameKind::Text => true,
        FrameKind::Binary => true,
        _ => false,
    }
}

} // verus!
