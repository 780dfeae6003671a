use vstd::prelude::*;

verus! {

/// The fatal configuration errors of the harness.
///
/// Every variant marks a build or integration bug rather than a runtime
/// condition: the host is expected to abort the whole execution context on
/// any of them, not to retry or recover.
#[derive(Clone, Copy, Debug, PartialEq, Eq, Structural)]
pub enum FatalError {
    /// A test context was installed while the singleton slot was occupied.
    ContextAlreadyInstalled,
    /// The runner started, or the context was taken, before a context was
    /// installed in the singleton slot.
    ContextNotInstalled,
    /// A test name exceeded the fixed capacity of `TestName`.
    NameTooLong,
}

} // verus!
