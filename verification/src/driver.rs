//! Accept-loop policies of the two tunnel drivers.
//!
//! The drivers' loops live with the caller, on the async runtime; what they
//! decide lives here. Each policy function maps one observed event to the
//! loop's next step, and its contract pins the decision down: accepted work
//! is always dispatched to run independently — an accept loop never awaits a
//! flow — failures abandon only the item they struck, and only
//! connection-terminal transport events end a per-connection serve loop.
//! Nothing ends the two outer accept loops; they serve until the process is
//! terminated from outside.

use vstd::prelude::*;

verus! {

/// What an accept loop does with the item it just observed.
pub enum LoopStep {
    /// Dispatch the accepted item to run independently, and accept the next
    /// item at once.
    Dispatch,
    /// Abandon only the item just accepted, and keep accepting.
    AbandonItem,
    /// End this connection's serve loop. Sibling connections and the outer
    /// accept loops are unaffected.
    EndConnection,
}

/// What the server's per-connection stream-accept loop observed.
pub enum StreamAcceptEvent {
    /// A new bidirectional stream was accepted: one fresh flow.
    Opened,
    /// The connection hit its idle timeout.
    TimedOut,
    /// The peer closed the connection at the application level.
    Closed,
    /// Any other transport error on this connection.
    TransportFailed,
}

/// Server policy, per accepted stream: a flow is dispatched exactly when a
/// stream was accepted, and the serve loop ends exactly on the
/// connection-terminal events — timeout, application close, or a transport
/// error. One connection's end never touches its sibling connections.
pub fn on_stream_accept(ev: &StreamAcceptEvent) -> (step: LoopStep)
    ensures
        step is Dispatch <==> ev is Opened,
        step is EndConnection <==> !(ev is Opened),
{
    match ev {
        StreamAcceptEvent::Opened => LoopStep::Dispatch,
        _ => LoopStep::EndConnection,
    }
}

/// What the client driver observed for one accepted TCP connection: whether
/// a QUIC stream to the remote peer came up for it.
pub enum StreamOpenEvent {
    /// A bidirectional stream was opened: one fresh flow.
    Opened,
    /// No QUIC connection to the peer could be established for this TCP
    /// connection.
    ConnectFailed,
    /// The stream could not be opened — the connection is dead or the
    /// stream limit is exhausted.
    OpenFailed,
}

/// Client policy, per accepted TCP connection: a flow is dispatched exactly
/// when its stream opened; a failed connection establishment or a failed
/// stream open abandons only that one TCP connection. No outcome ends the
/// TCP accept loop.
pub fn on_tcp_accept(ev: &StreamOpenEvent) -> (step: LoopStep)
    ensures
        step is Dispatch <==> ev is Opened,
        step is AbandonItem <==> !(ev is Opened),
        !(step is EndConnection),
{
    match ev {
        StreamOpenEvent::Opened => LoopStep::Dispatch,
        _ => LoopStep::AbandonItem,
    }
}

/// What the server observed for one accepted stream: whether the TCP
/// connection to the fixed destination came up for it.
pub enum TcpConnectEvent {
    /// The destination accepted: one fresh flow.
    Connected,
    /// The destination could not be reached.
    ConnectFailed,
}

/// Server policy, per accepted stream's TCP connect: a flow is dispatched
/// exactly when the destination accepted; a failed connect abandons only
/// that one stream. No outcome ends the stream-accept loop.
pub fn on_tcp_connect(ev: &TcpConnectEvent) -> (step: LoopStep)
    ensures
        step is Dispatch <==> ev is Connected,
        step is AbandonItem <==> ev is ConnectFailed,
        !(step is EndConnection),
{
    match ev {
        TcpConnectEvent::Connected => LoopStep::Dispatch,
        TcpConnectEvent::ConnectFailed => LoopStep::AbandonItem,
    }
}

/// What the server's outer loop observed for one incoming connection
/// attempt.
pub enum ConnectionEvent {
    /// The QUIC handshake completed: a tunnel connection is up.
    Established,
    /// The handshake failed.
    HandshakeFailed,
}

/// Server policy, per incoming connection: serve it exactly when the
/// handshake succeeded; a failed handshake abandons only that attempt. No
/// outcome ends the outer connection-accept loop.
pub fn on_connection_accept(ev: &ConnectionEvent) -> (step: LoopStep)
    ensures
        step is Dispatch <==> ev is Established,
        step is AbandonItem <==> ev is HandshakeFailed,
        !(step is EndConnection),
{
    match ev {
        ConnectionEvent::Established => LoopStep::Dispatch,
        ConnectionEvent::HandshakeFailed => LoopStep::AbandonItem,
    }
}

} // verus!
