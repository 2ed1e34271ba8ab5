//! The life of one accepted connection, from dispatch to close. Each connection
//! runs in a task of its own; nothing that happens here reaches the listener
//! that accepted it.
use vstd::prelude::*;

verus! {

/// Why a connection was closed.
#[derive(Clone, Copy, Debug, PartialEq, Eq, Structural)]
pub enum CloseReason {
    /// The TLS handshake failed; the connection was discarded.
    HandshakeFailed,
    /// The protocol handler served the connection to completion.
    Served,
    /// The protocol handler reported an error while serving.
    ServeFailed,
}

/// Where one accepted connection stands.
#[derive(Clone, Copy, Debug, PartialEq, Eq, Structural)]
pub enum ConnectionStage {
    /// Waiting for the TLS handshake to finish.
    Handshaking,
    /// Handed to the protocol handler.
    Serving,
    /// Done.
    Closed(CloseReason),
}

/// The stage after the handshake finished, successfully or not. A handshake
/// result that comes at any other stage changes nothing.
pub open spec fn after_handshake(stage: ConnectionStage, succeeded: bool) -> ConnectionStage {
    match stage {
        ConnectionStage::Handshaking => if succeeded {
            ConnectionStage::Serving
        } else {
            ConnectionStage::Closed(CloseReason::HandshakeFailed)
        },
        _ => stage,
    }
}

/// The stage after the protocol handler returned. A result that comes at any
/// other stage than serving changes nothing.
pub open spec fn after_serving(stage: ConnectionStage, succeeded: bool) -> ConnectionStage {
    match stage {
        ConnectionStage::Serving => if succeeded {
            ConnectionStage::Closed(CloseReason::Served)
        } else {
            ConnectionStage::Closed(CloseReason::ServeFailed)
        },
        _ => stage,
    }
}

impl ConnectionStage {
    /// The first stage of a connection accepted by a listener: a TLS listener
    /// handshakes first, a plain one hands the connection straight to the handler.
    pub fn accepted(over_tls: bool) -> (r: ConnectionStage)
        ensures
            r == (if over_tls {
                ConnectionStage::Handshaking
            } else {
                ConnectionStage::Serving
            }),
    {
        if over_tls {
            ConnectionStage::Handshaking
        } else {
            ConnectionStage::Serving
        }
    }

    /// Records the end of the TLS handshake.
    pub fn on_handshake(self, succeeded: bool) -> (r: ConnectionStage)
        ensures
            r == after_handshake(self, succeeded),
    {
        match self {
            ConnectionStage::Handshaking => if succeeded {
                ConnectionStage::Serving
            } else {
                ConnectionStage::Closed(CloseReason::HandshakeFailed)
            },
            _ => self,
        }
    }

    /// Records the end of serving.
    pub fn on_served(self, succeeded: bool) -> (r: ConnectionStage)
        ensures
            r == after_serving(self, succeeded),
    {
        match self {
            ConnectionStage::Serving => if succeeded {
                ConnectionStage::Closed(CloseReason::Served)
            } else {
                ConnectionStage::Closed(CloseReason::ServeFailed)
            },
            _ => self,
        }
    }

    /// True when the protocol handler should now be given the connection.
    pub fn is_serving(&self) -> (r: bool)
        ensures
            r == (*self is Serving),
    {
        match self {
            ConnectionStage::Serving => true,
            _ => false,
        }
    }

    /// True once the connection is closed.
    pub fn is_closed(&self) -> (r: bool)
        ensures
            r == (*self is Closed),
    {
        match self {
            ConnectionStage::Closed(_) => true,
            _ => false,
        }
    }
}

} // verus!
