//! The work gatherer's decisions.  The gatherer owns one streaming connection
//! to the daemon; every inbound text frame becomes a job template to publish,
//! and any transport trouble becomes one typed error after which the gatherer
//! stops — no reconnection is attempted, a deliberate extension point.

use vstd::prelude::*;
use vstd::string::StringExecFns;

use crate::daemon_rpc::GetBlockTemplateResult;

verus! {

/// The one typed error the gatherer reports over its error channel before
/// its thread ends.
#[derive(Debug)]
pub enum MinerError {
    WebSocketError(String),
}

/// What the gatherer's connection hands it next.
pub enum GathererEvent {
    /// The connection attempt failed, with the transport's message.
    ConnectFailed(String),
    /// A text frame arrived and parsed into a job template.
    Template(GetBlockTemplateResult),
    /// A frame of some other kind arrived.
    NonTextFrame,
    /// A text frame arrived but did not parse as a template, with the
    /// decoder's message.
    ParseFailed(String),
    /// Receiving on the open connection failed, with the transport's message.
    ReceiveFailed(String),
}

/// What the gatherer does in reply: publish fresh work, or report one error
/// and stop.
pub enum GathererAction {
    Publish(GetBlockTemplateResult),
    Stop(MinerError),
}

/// The gatherer's whole decision table: a parsed template is published, and
/// every failure is reported once, as a websocket error carrying the
/// transport's message — or a fixed message for a frame of the wrong kind.
pub fn gatherer_react(event: GathererEvent) -> (a: GathererAction)
    ensures
        match event {
            GathererEvent::ConnectFailed(m) => a == GathererAction::Stop(
                MinerError::WebSocketError(m),
            ),
            GathererEvent::Template(t) => a == GathererAction::Publish(t),
            GathererEvent::NonTextFrame => a matches GathererAction::Stop(
                MinerError::WebSocketError(s),
            ) && s@ == "Received wrong type"@,
            GathererEvent::ParseFailed(m) => a == GathererAction::Stop(
                MinerError::WebSocketError(m),
            ),
            GathererEvent::ReceiveFailed(m) => a == GathererAction::Stop(
                MinerError::WebSocketError(m),
            ),
        },
{
    match event {
        GathererEvent::ConnectFailed(m) => GathererAction::Stop(MinerError::WebSocketError(m)),
        GathererEvent::Template(t) => GathererAction::Publish(t),
        GathererEvent::NonTextFrame => GathererAction::Stop(
            MinerError::WebSocketError("Received wrong type".to_owned()),
        ),
        GathererEvent::ParseFailed(m) => GathererAction::Stop(MinerError::WebSocketError(m)),
        GathererEvent::ReceiveFailed(m) => GathererAction::Stop(MinerError::WebSocketError(m)),
    }
}

/// The daemon endpoint: a secure websocket URL naming the daemon's network
/// location and the reward wallet address.
pub fn endpoint_url(daemon_rpc_address: &str, wallet_address: &str) -> (r: String)
    ensures
        r@ == "wss://"@ + daemon_rpc_address@ + "/ws/"@ + wallet_address@,
{
    let mut s: String = String::new();
    s.append("wss://");
    s.append(daemon_rpc_address);
    s.append("/ws/");
    s.append(wallet_address);
    proof {
        assert(s@ =~= "wss://"@ + daemon_rpc_address@ + "/ws/"@ + wallet_address@);
    }
    s
}

} // verus!
