//! The shared records: the global sequence state, the pool registry and the
//! order ledger, with their lookups.
use vstd::prelude::*;
use crate::address::Address;
use crate::error::ContinuumError;

verus! {

/// The direction a caller declared; execution always uses exact-input semantics.
#[derive(Clone, Copy, Debug, PartialEq, Eq, Structural)]
pub enum Direction {
    BaseIn,
    BaseOut,
}

/// Where an order stands in its lifecycle.
#[derive(Clone, Copy, Debug, PartialEq, Eq, Structural)]
pub enum OrderStatus {
    Pending,
    Executed,
    Cancelled,
}

/// A submitted order.
#[derive(Clone, Copy, Debug, PartialEq, Eq)]
pub struct Order {
    pub sequence: u64,
    pub submitter: Address,
    pub pool_id: Address,
    pub amount_in: u64,
    pub min_amount_out: u64,
    pub direction: Direction,
    pub status: OrderStatus,
}

/// A pool's custody record.
#[derive(Clone, Copy, Debug, PartialEq, Eq)]
pub struct CpSwapPoolRegistry {
    pub pool_id: Address,
    pub is_active: bool,
    pub authority_bump: u8,
}

/// The global sequence counter and the emergency pause.
#[derive(Clone, Copy, Debug, PartialEq, Eq)]
pub struct FifoState {
    /// The last sequence number issued.
    pub current_sequence: u64,
    pub emergency_pause: bool,
    /// The identity allowed to pause and to change custody.
    pub admin: Address,
}

impl FifoState {
    /// Fails with `Paused` exactly when the pause is on.
    pub fn assert_not_paused(&self) -> (r: Result<(), ContinuumError>)
        ensures
            r == (if self.emergency_pause {
                Err(ContinuumError::Paused)
            } else {
                Ok(())
            }),
    {
        if self.emergency_pause {
            Err(ContinuumError::Paused)
        } else {
            Ok(())
        }
    }

    /// Issues the next sequence number; the counter never wraps.
    pub fn advance_sequence(&mut self) -> (r: Result<u64, ContinuumError>)
        ensures
            old(self).current_sequence == u64::MAX ==> r == Err::<u64, ContinuumError>(
                ContinuumError::SequenceOverflow,
            ) && *final(self) == *old(self),
            old(self).current_sequence < u64::MAX ==> r == Ok::<u64, ContinuumError>(
                (old(self).current_sequence + 1) as u64,
            ) && *final(self) == (FifoState {
                current_sequence: (old(self).current_sequence + 1) as u64,
                ..*old(self)
            }),
    {
        if self.current_sequence == u64::MAX {
            return Err(ContinuumError::SequenceOverflow);
        }
        self.current_sequence = self.current_sequence + 1;
        Ok(self.current_sequence)
    }

    /// Turns the pause on or off; only the admin may.
    pub fn set_pause(&mut self, caller: &Address, paused: bool) -> (r: Result<(), ContinuumError>)
        ensures
            caller@ == old(self).admin@ ==> r == Ok::<(), ContinuumError>(()) && *final(self) == (
            FifoState { emergency_pause: paused, ..*old(self) }),
            caller@ != old(self).admin@ ==> r == Err::<(), ContinuumError>(
                ContinuumError::Unauthorized,
            ) && *final(self) == *old(self),
    {
        if !caller.same_as(&self.admin) {
            return Err(ContinuumError::Unauthorized);
        }
        self.emergency_pause = paused;
        Ok(())
    }
}

/// Some order in `orders` carries `s`.
pub open spec fn order_exists(orders: Seq<Order>, s: u64) -> bool {
    exists|i: int| 0 <= i < orders.len() && orders[i].sequence == s
}

/// The position of the order that carries `s`.
pub open spec fn order_index(orders: Seq<Order>, s: u64) -> int {
    choose|i: int| 0 <= i < orders.len() && orders[i].sequence == s
}

/// Some pending order comes before `s`.
pub open spec fn earlier_pending(orders: Seq<Order>, s: u64) -> bool {
    exists|j: int|
        0 <= j < orders.len() && orders[j].status == OrderStatus::Pending && orders[j].sequence < s
}

/// The ledger holds sequences in strictly increasing order, none above `current`.
pub open spec fn ledger_wf(orders: Seq<Order>, current: u64) -> bool {
    &&& forall|i: int, j: int|
        0 <= i < j < orders.len() ==> #[trigger] orders[i].sequence < #[trigger] orders[j].sequence
    &&& forall|i: int| 0 <= i < orders.len() ==> #[trigger] orders[i].sequence <= current
}

/// Some registry entry is for `pool_id`.
pub open spec fn pool_known(reg: Seq<CpSwapPoolRegistry>, pool_id: Seq<u8>) -> bool {
    exists|i: int| 0 <= i < reg.len() && reg[i].pool_id@ == pool_id
}

/// The position of the registry entry for `pool_id`.
pub open spec fn pool_index(reg: Seq<CpSwapPoolRegistry>, pool_id: Seq<u8>) -> int {
    choose|i: int| 0 <= i < reg.len() && reg[i].pool_id@ == pool_id
}

/// No two registry entries are for the same pool.
pub open spec fn registry_wf(reg: Seq<CpSwapPoolRegistry>) -> bool {
    forall|i: int, j: int|
        0 <= i < reg.len() && 0 <= j < reg.len() && #[trigger] reg[i].pool_id@
            == #[trigger] reg[j].pool_id@ ==> i == j
}

/// Why forwarding to `pool_id` is refused, if it is.
pub open spec fn pool_error(reg: Seq<CpSwapPoolRegistry>, pool_id: Seq<u8>) -> Option<
    ContinuumError,
> {
    if !pool_known(reg, pool_id) {
        Some(ContinuumError::PoolNotRegistered)
    } else if !reg[pool_index(reg, pool_id)].is_active {
        Some(ContinuumError::PoolInactive)
    } else {
        None
    }
}

/// Finds the order that carries `s`.
pub fn find_order(orders: &Vec<Order>, s: u64) -> (r: Option<usize>)
    ensures
        match r {
            Some(i) => i < orders@.len() && orders@[i as int].sequence == s,
            None => !order_exists(orders@, s),
        },
{
    let mut i: usize = 0;
    while i < orders.len()
        invariant
            0 <= i <= orders@.len(),
            forall|j: int| 0 <= j < i ==> orders@[j].sequence != s,
        decreases orders@.len() - i,
    {
        if orders[i].sequence == s {
            return Some(i);
        }
        i = i + 1;
    }
    None
}

/// Whether a pending order comes before `s`.
pub fn has_earlier_pending(orders: &Vec<Order>, s: u64) -> (r: bool)
    ensures
        r == earlier_pending(orders@, s),
{
    let mut i: usize = 0;
    while i < orders.len()
        invariant
            0 <= i <= orders@.len(),
            forall|j: int|
                0 <= j < i ==> !(orders@[j].status == OrderStatus::Pending && orders@[j].sequence
                    < s),
        decreases orders@.len() - i,
    {
        if orders[i].status == OrderStatus::Pending && orders[i].sequence < s {
            return true;
        }
        i = i + 1;
    }
    false
}

/// Finds the registry entry for `pool_id`.
pub fn find_pool(reg: &Vec<CpSwapPoolRegistry>, pool_id: &Address) -> (r: Option<usize>)
    ensures
        match r {
            Some(i) => i < reg@.len() && reg@[i as int].pool_id@ == pool_id@,
            None => !pool_known(reg@, pool_id@),
        },
{
    let mut i: usize = 0;
    while i < reg.len()
        invariant
            0 <= i <= reg@.len(),
            forall|j: int| 0 <= j < i ==> reg@[j].pool_id@ != pool_id@,
        decreases reg@.len() - i,
    {
        if reg[i].pool_id.same_as(pool_id) {
            return Some(i);
        }
        i = i + 1;
    }
    None
}

} // verus!
