use vstd::prelude::*;

verus! {

/// Every way a request can be refused.
#[derive(Clone, Copy, Debug, PartialEq, Eq, Structural)]
pub enum ContinuumError {
    /// The emergency pause is on.
    Paused,
    /// The pool has no registry entry.
    PoolNotRegistered,
    /// The pool's registry entry exists but custody has ended.
    PoolInactive,
    /// The declared sequence is not the next pending order.
    SequenceMismatch,
    /// The order was already executed or cancelled.
    NotPending,
    /// The caller may not perform this request.
    Unauthorized,
    /// The AMM engine refused the forwarded call.
    ForwardingFailed,
    /// The sequence counter cannot advance any further.
    SequenceOverflow,
    /// The pool's delegated authority cannot be derived from its stored bump.
    InvalidAuthority,
}

} // verus!
