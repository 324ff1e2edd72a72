//! The server's decisions: who a new peer is, and what becomes of its connection.

use vstd::prelude::*;
use crate::tdv_msg::WsMessage;

verus! {

/// Who a peer said it is.
#[derive(Debug, Clone, Copy, PartialEq, Eq, Structural)]
pub enum PeerRole {
    /// The user interface.
    Ui,
    /// The client.
    Client,
    /// Neither.
    Unknown,
}

/// The role that a peer's reply to `WhoAreYou` declares.
pub open spec fn spec_peer_role<V>(reply: WsMessage<V>) -> PeerRole {
    match reply {
        WsMessage::IAmUI => PeerRole::Ui,
        WsMessage::IAmClient => PeerRole::Client,
        _ => PeerRole::Unknown,
    }
}

/// The role that a peer's reply to `WhoAreYou` declares.
pub fn peer_role<V>(reply: &WsMessage<V>) -> (r: PeerRole)
    ensures
        r == spec_peer_role(*reply),
{
    match reply {
        WsMessage::IAmUI => PeerRole::Ui,
        WsMessage::IAmClient => PeerRole::Client,
        _ => PeerRole::Unknown,
    }
}

/// What becomes of a connection once its peer is known.
#[derive(Debug, Clone, Copy, PartialEq, Eq, Structural)]
pub enum ConnectionPlan {
    /// Keep it as the websocket to the user interface, replacing an earlier one.
    HoldUi,
    /// Keep it as the websocket to the client, replacing an earlier one, and forward
    /// each message that it reads to the user interface, as it came.
    RelayClient,
    /// Close it.
    Close,
}

/// The server's knowledge of its peers: whether a user interface and a client are connected.
pub struct Hub {
    ui: bool,
    client: bool,
}

/// What the hub holds.
pub struct HubView {
    /// A user interface is connected.
    pub ui: bool,
    /// A client is connected.
    pub client: bool,
}

impl View for Hub {
    type V = HubView;

    closed spec fn view(&self) -> HubView {
        HubView { ui: self.ui, client: self.client }
    }
}

impl Hub {
    /// No peer connected yet.
    pub fn new() -> (r: Self)
        ensures
            !r@.ui,
            !r@.client,
    {
        Hub { ui: false, client: false }
    }

    /// Whether a user interface is connected.
    pub fn has_ui(&self) -> (r: bool)
        ensures
            r == self@.ui,
    {
        self.ui
    }

    /// Whether a client is connected.
    pub fn has_client(&self) -> (r: bool)
        ensures
            r == self@.client,
    {
        self.client
    }

    /// A new connection's peer replied `reply` to `WhoAreYou`.
    pub fn on_identified<V>(&mut self, reply: &WsMessage<V>) -> (r: ConnectionPlan)
        ensures
            match spec_peer_role(*reply) {
                PeerRole::Ui => r is HoldUi && final(self)@ == (HubView { ui: true, client: old(self)@.client }),
                PeerRole::Client => r is RelayClient && final(self)@ == (HubView { ui: old(self)@.ui, client: true }),
                PeerRole::Unknown => r is Close && final(self)@ == old(self)@,
            },
    {
        match peer_role(reply) {
            PeerRole::Ui => {
                self.ui = true;
                ConnectionPlan::HoldUi
            },
            PeerRole::Client => {
                self.client = true;
                ConnectionPlan::RelayClient
            },
            PeerRole::Unknown => ConnectionPlan::Close,
        }
    }
}

} // verus!
