//! The error taxonomy: everything that can go wrong while registering
//! systems, wiring the dependency graph, or driving one system's task.

use vstd::prelude::*;

verus! {

/// A channel-receive failure: while a task waited on one of its upstream
/// dependencies, that dependency's sending half was dropped or closed, so
/// no further change will ever be signalled.
#[derive(Clone, Copy, Debug, PartialEq, Eq, Structural)]
pub struct RecvFault;

/// A channel-send failure: a task tried to publish its completion but the
/// downstream side of its signal is gone or invalid.
#[derive(Clone, Copy, Debug, PartialEq, Eq, Structural)]
pub struct SendFault;

/// The single propagation type for every failure of this layer, generic
/// over the system's own error type `E`. Each variant is terminal for the
/// task or operation in which it occurs; nothing here is retried.
#[derive(Clone, Debug, PartialEq, Eq)]
pub enum Error<E> {
    /// A system with this name was already registered.
    NameAlreadyRegistered(String),
    /// A system declared a dependency on a name that was never registered.
    DependencyWasNotFound(String),
    /// The dispatch operation itself could not be started.
    DispatchSend(SendFault),
    /// The dispatch operation could not wait for its systems to finish.
    DispatchReceive(RecvFault),
    /// One system's task could not publish its completion downstream.
    SystemNotifySend(SendFault),
    /// One system's task could not wait on an upstream dependency.
    SystemNotifyReceive(RecvFault),
    /// The system's own execution reported an error; the payload is the
    /// system's error value, passed through unmodified.
    SystemRunError(E),
}

} // verus!
