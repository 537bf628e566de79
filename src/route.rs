//! The connection endpoint as plain values: the path it is served under and
//! the sub-protocol it negotiates.
use vstd::prelude::*;

verus! {

/// The one application sub-protocol that the endpoint accepts.
pub const SUBPROTOCOL: &'static str = "AFFiNE";

/// Capacity of each session's outbound channel.
pub const OUTBOUND_CAPACITY: usize = 100;

/// The sub-protocol a client authenticated for.
pub struct WebSocketAuthentication {
    protocol: String,
}

impl WebSocketAuthentication {
    pub fn new(protocol: String) -> (r: WebSocketAuthentication)
        ensures
            r.spec_protocol() == protocol@,
    {
        WebSocketAuthentication { protocol }
    }

    pub closed spec fn spec_protocol(&self) -> Seq<char> {
        self.protocol@
    }

    pub fn protocol(&self) -> (r: &String)
        ensures
            r@ == self.spec_protocol(),
    {
        &self.protocol
    }
}

/// The connection endpoint: a path with the workspace id as its one
/// parameter, and the sub-protocols offered during the upgrade.
pub struct WsRoute {
    pub path: String,
    pub protocols: Vec<String>,
}

/// The endpoint under which sessions are accepted: `/:id`, where `id` is the
/// workspace id, offering the one sub-protocol `AFFiNE`.
pub fn make_ws_route() -> (r: WsRoute)
    ensures
        r.path@ == "/:id"@,
        r.protocols@.len() == 1,
        r.protocols@[0]@ == SUBPROTOCOL@,
{
    let path = "/:id".to_owned();
    let mut protocols: Vec<String> = Vec::new();
    protocols.push(SUBPROTOCOL.to_owned());
    WsRoute { path, protocols }
}

} // verus!
