//! The messages that the user interface handles.

use vstd::prelude::*;

verus! {

/// A message from the page itself.
#[derive(Debug, Clone, Copy, PartialEq, Eq, Structural)]
pub enum UiMessage {
    /// Nothing to do.
    Ignore,
}

/// A message to the user interface's model: a websocket message `M`, a message
/// from the page, or nothing.
#[derive(Debug)]
pub enum ModelMessage<M> {
    /// A message that arrived over a websocket.
    WsMessage(M),
    /// A message from the page.
    UiMessage(UiMessage),
    /// Nothing to do.
    Ignore,
}

/// A websocket message on its way to the model.
#[derive(Debug)]
pub struct WsMessageForModel<M>(pub M);

} // verus!
