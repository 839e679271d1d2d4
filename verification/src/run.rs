//! The capability interface that turns any system into a runnable unit
//! against the shared world.

use vstd::prelude::*;

verus! {

/// Trait for fetching data and running systems.
///
/// A single call performs exactly two steps: compute the resource-access
/// pattern the wrapped system declares and use it to fetch a borrowed data
/// view from the world, then invoke the system's execution method with
/// that view. Success is implicit: the synchronous execution method cannot
/// report an error.
///
/// The trait is generic over the world type, so any system shape can be
/// adapted without a common base type.
///
/// # Panics
///
/// Panics if the system tries to fetch resources which are borrowed in an
/// incompatible way already (tries to read from a resource which is
/// already written to, or tries to write to a resource which is read
/// from). Such a conflict is a graph-design fault, not a recoverable
/// runtime condition: the dependency graph must be constructed so that no
/// two concurrently-running systems ever fetch conflicting access to the
/// same resource at the same instant. The panic aborts the offending task
/// and is not caught by this layer.
pub trait Run<World> {
    /// Runs the system now: fetch the declared data view from `world`,
    /// then execute once with it.
    fn run(&mut self, world: &World);
}

} // verus!
