//! The decisions the background tasks run on: what the accept loop
//! does with each outcome of an accept call, and whether a
//! connection may be kept for another exchange. The application's
//! loops perform the waiting and the I/O; each step they take is
//! dictated by the verified transitions here.

use vstd::prelude::*;

verus! {

/// What one accept call came back with.
#[derive(Clone, Copy, PartialEq, Eq, Structural, Debug)]
pub enum AcceptEvent {
    /// A new connection arrived.
    Connection,
    /// The accept failed transiently, e.g. from resource
    /// exhaustion.
    TransientError,
    /// The listening socket was closed by a stop; accepting is over.
    Closed,
}

/// What the accept loop does next.
#[derive(Clone, Copy, PartialEq, Eq, Structural, Debug)]
pub enum AcceptStep {
    /// Hand the connection to a serve task and keep listening.
    Serve,
    /// Note the error and keep listening: a transient accept error
    /// never terminates the loop.
    Continue,
    /// Release the loop's task: the listener is gone.
    Exit,
}

/// The accept loop's transition: only the closing of the listener
/// ends the loop; a connection is served and everything else is
/// ridden out.
pub open spec fn accept_spec(ev: AcceptEvent) -> AcceptStep {
    match ev {
        AcceptEvent::Connection => AcceptStep::Serve,
        AcceptEvent::TransientError => AcceptStep::Continue,
        AcceptEvent::Closed => AcceptStep::Exit,
    }
}

/// Decides the accept loop's next step from what one accept call
/// came back with.
pub fn accept_transition(ev: &AcceptEvent) -> (r: AcceptStep)
    ensures
        r == accept_spec(*ev),
{
    match ev {
        AcceptEvent::Connection => AcceptStep::Serve,
        AcceptEvent::TransientError => AcceptStep::Continue,
        AcceptEvent::Closed => AcceptStep::Exit,
    }
}

/// Decides, after one completed exchange, whether the connection may
/// be reused: only while the shutdown signal has not fired. This is
/// the serve task's cooperative drain point — once a stop has fired
/// the signal, every task that reaches this check lets its
/// connection go.
pub fn may_reuse_connection(shutdown_fired: bool) -> (r: bool)
    ensures
        r == !shutdown_fired,
{
    !shutdown_fired
}

} // verus!
