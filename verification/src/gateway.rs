//! What the gateway does with a request, once its selector has been resolved.

use vstd::prelude::*;
use crate::endpoint::{Endpoint, EndpointView};
use crate::error::SelectionError;
use crate::session::{asks_for_tunnel, is_tunnel_request, SessionState, SessionView, TunnelSession};

verus! {

/// What to do with a request.
#[derive(Debug)]
pub enum Decision {
    /// The selector did not resolve: answer with the error. No handshake is
    /// attempted.
    Reject(SelectionError),
    /// Complete the handshake and run this session.
    Tunnel(TunnelSession),
    /// The request asks for no tunnel: send it to the landing page.
    Redirect,
}

pub enum DecisionView {
    Reject(SelectionError),
    Tunnel(SessionView),
    Redirect,
}

impl View for Decision {
    type V = DecisionView;

    open spec fn view(&self) -> DecisionView {
        match *self {
            Decision::Reject(e) => DecisionView::Reject(e),
            Decision::Tunnel(session) => DecisionView::Tunnel(session@),
            Decision::Redirect => DecisionView::Redirect,
        }
    }
}

/// The decision on a request with this resolution and this upgrade header.
/// The resolution comes first: a selector that fails is rejected whatever the
/// request asks for.
pub open spec fn decision(
    resolution: Result<EndpointView, SelectionError>,
    upgrade: Seq<char>,
) -> DecisionView {
    match resolution {
        Err(e) => DecisionView::Reject(e),
        Ok(endpoint) => if asks_for_tunnel(upgrade) {
            DecisionView::Tunnel(SessionView { endpoint, state: SessionState::Handshaking })
        } else {
            DecisionView::Redirect
        },
    }
}

/// Decides on a request. `upgrade` is the request's upgrade header, empty
/// where it has none.
pub fn decide(resolution: Result<Endpoint, SelectionError>, upgrade: &str) -> (d: Decision)
    ensures
        d@ == decision(crate::table::selection_view(resolution), upgrade@),
{
    match resolution {
        Err(e) => Decision::Reject(e),
        Ok(endpoint) => {
            if is_tunnel_request(upgrade) {
                Decision::Tunnel(TunnelSession::new(endpoint))
            } else {
                Decision::Redirect
            }
        },
    }
}

/// A tunnel is started only towards an endpoint that the selector resolved
/// to: a failed resolution starts none, whatever the request asks for.
pub proof fn lemma_no_tunnel_without_endpoint(
    resolution: Result<EndpointView, SelectionError>,
    upgrade: Seq<char>,
)
    ensures
        resolution matches Err(e) ==> decision(resolution, upgrade) == DecisionView::Reject(e),
        decision(resolution, upgrade) matches DecisionView::Tunnel(session) ==> resolution == Ok::<
            EndpointView,
            SelectionError,
        >(session.endpoint) && session.state == SessionState::Handshaking,
{
}

} // verus!
