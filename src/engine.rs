//! The order lifecycle (submit / execute / cancel), the immediate path, the
//! liquidity paths and the administrative controls, over one shared state.
use vstd::prelude::*;
use crate::address::Address;
use crate::error::ContinuumError;
use crate::forward::{
    authority_of, build_call, call_of, derive_authority, AccountRef, ForwardCall, ForwardCallView,
    LeadRole,
};
use crate::state::{
    earlier_pending, find_order, find_pool, has_earlier_pending, ledger_wf, order_exists,
    order_index, pool_error, pool_index, pool_known, registry_wf, CpSwapPoolRegistry, Direction,
    FifoState, Order, OrderStatus,
};
use crate::wire::AmmOperation;

verus! {

/// The whole custodial state: sequence state, pool registry and order ledger,
/// with this program's address and the AMM engine's.
#[derive(Clone, Debug)]
pub struct Continuum {
    pub fifo_state: FifoState,
    pub registry: Vec<CpSwapPoolRegistry>,
    pub orders: Vec<Order>,
    /// The address under which delegated authorities are derived.
    pub program_id: Address,
    /// The AMM engine every call is forwarded to.
    pub amm_program: Address,
}

/// What the state holds.
pub struct ContinuumView {
    pub fifo_state: FifoState,
    pub registry: Seq<CpSwapPoolRegistry>,
    pub orders: Seq<Order>,
    pub program_id: Address,
    pub amm_program: Address,
}

impl View for Continuum {
    type V = ContinuumView;

    open spec fn view(&self) -> ContinuumView {
        ContinuumView {
            fifo_state: self.fifo_state,
            registry: self.registry@,
            orders: self.orders@,
            program_id: self.program_id,
            amm_program: self.amm_program,
        }
    }
}

impl Continuum {
    /// Sequences are unique, ordered and issued; each pool has at most one entry.
    pub open spec fn wf(&self) -> bool {
        self@.wf()
    }
}

impl ContinuumView {
    pub open spec fn wf(self) -> bool {
        ledger_wf(self.orders, self.fifo_state.current_sequence) && registry_wf(self.registry)
    }
}

/// Record of an accepted submission.
#[derive(Clone, Copy, Debug, PartialEq, Eq)]
pub struct OrderSubmitted {
    pub sequence: u64,
    pub submitter: Address,
    pub pool_id: Address,
    pub amount_in: u64,
    pub min_amount_out: u64,
    pub direction: Direction,
}

/// Record of an executed order.
#[derive(Clone, Copy, Debug, PartialEq, Eq)]
pub struct OrderExecuted {
    pub sequence: u64,
    pub pool_id: Address,
    pub amount_in: u64,
    pub min_amount_out: u64,
}

/// Record of a cancelled order.
#[derive(Clone, Copy, Debug, PartialEq, Eq)]
pub struct OrderCancelled {
    pub sequence: u64,
    pub submitter: Address,
}

/// Record of an immediate swap.
#[derive(Clone, Copy, Debug, PartialEq, Eq)]
pub struct SwapExecuted {
    pub sequence: u64,
    pub pool_id: Address,
    pub amount_in: u64,
    pub is_base_input: bool,
}

/// Record of a liquidity deposit.
#[derive(Clone, Copy, Debug, PartialEq, Eq)]
pub struct LiquidityDeposited {
    pub sequence: u64,
    pub pool_id: Address,
    pub min_lp_amount: u64,
}

/// Record of a liquidity withdrawal.
#[derive(Clone, Copy, Debug, PartialEq, Eq)]
pub struct LiquidityWithdrawn {
    pub sequence: u64,
    pub pool_id: Address,
    pub lp_amount: u64,
}

// ---- the model of each request ----

/// Why a call to `pool_id` cannot be forwarded, if it cannot.
pub open spec fn forward_error(v: ContinuumView, pool_id: Seq<u8>) -> Option<ContinuumError> {
    if pool_error(v.registry, pool_id) is Some {
        pool_error(v.registry, pool_id)
    } else if authority_of(
        v.program_id@,
        pool_id,
        v.registry[pool_index(v.registry, pool_id)].authority_bump,
    ) is None {
        Some(ContinuumError::InvalidAuthority)
    } else {
        None
    }
}

/// The call forwarded for `op` on `pool_id`.
pub open spec fn forward_call(
    v: ContinuumView,
    pool_id: Seq<u8>,
    op: AmmOperation,
    lead: LeadRole,
    accts: Seq<AccountRef>,
) -> ForwardCallView {
    let bump = v.registry[pool_index(v.registry, pool_id)].authority_bump;
    call_of(
        v.amm_program@,
        authority_of(v.program_id@, pool_id, bump).unwrap(),
        pool_id,
        bump,
        op,
        lead,
        accts,
    )
}

/// The state with the counter moved to `s`.
pub open spec fn with_sequence(v: ContinuumView, s: u64) -> ContinuumView {
    ContinuumView { fifo_state: FifoState { current_sequence: s, ..v.fifo_state }, ..v }
}

/// The state with the pause set to `paused`.
pub open spec fn with_pause(v: ContinuumView, paused: bool) -> ContinuumView {
    ContinuumView { fifo_state: FifoState { emergency_pause: paused, ..v.fifo_state }, ..v }
}

/// The next sequence number.
pub open spec fn next_sequence(v: ContinuumView) -> u64 {
    (v.fifo_state.current_sequence + 1) as u64
}

/// Why a submission to `pool_id` is refused, if it is.
pub open spec fn submit_error(v: ContinuumView, pool_id: Seq<u8>) -> Option<ContinuumError> {
    if v.fifo_state.emergency_pause {
        Some(ContinuumError::Paused)
    } else if pool_error(v.registry, pool_id) is Some {
        pool_error(v.registry, pool_id)
    } else if v.fifo_state.current_sequence == u64::MAX {
        Some(ContinuumError::SequenceOverflow)
    } else {
        None
    }
}

/// The order a submission records.
pub open spec fn submitted_order(
    v: ContinuumView,
    submitter: Address,
    pool_id: Address,
    amount_in: u64,
    min_amount_out: u64,
    direction: Direction,
) -> Order {
    Order {
        sequence: next_sequence(v),
        submitter,
        pool_id,
        amount_in,
        min_amount_out,
        direction,
        status: OrderStatus::Pending,
    }
}

/// The state after recording `o` under the next sequence number.
pub open spec fn submit_post(v: ContinuumView, o: Order) -> ContinuumView {
    ContinuumView { orders: v.orders.push(o), ..with_sequence(v, o.sequence) }
}

/// Why executing sequence `s` is refused, if it is.
pub open spec fn execute_error(v: ContinuumView, s: u64) -> Option<ContinuumError> {
    if v.fifo_state.emergency_pause {
        Some(ContinuumError::Paused)
    } else if !order_exists(v.orders, s) {
        Some(ContinuumError::SequenceMismatch)
    } else if v.orders[order_index(v.orders, s)].status != OrderStatus::Pending {
        Some(ContinuumError::NotPending)
    } else if earlier_pending(v.orders, s) {
        Some(ContinuumError::SequenceMismatch)
    } else {
        forward_error(v, v.orders[order_index(v.orders, s)].pool_id@)
    }
}

/// The state with the order carrying `s` moved to `status`.
pub open spec fn with_status(v: ContinuumView, s: u64, status: OrderStatus) -> ContinuumView {
    let i = order_index(v.orders, s);
    ContinuumView { orders: v.orders.update(i, Order { status, ..v.orders[i] }), ..v }
}

/// The swap an order is executed as: exact amount in, minimum amount out.
pub open spec fn order_swap(o: Order) -> AmmOperation {
    AmmOperation::Swap { amount_in: o.amount_in, min_amount_out: o.min_amount_out }
}

/// Why `caller` may not cancel sequence `s`, if it may not.
pub open spec fn cancel_error(v: ContinuumView, caller: Seq<u8>, s: u64) -> Option<ContinuumError> {
    if v.fifo_state.emergency_pause {
        Some(ContinuumError::Paused)
    } else if !order_exists(v.orders, s) {
        Some(ContinuumError::SequenceMismatch)
    } else if v.orders[order_index(v.orders, s)].submitter@ != caller {
        Some(ContinuumError::Unauthorized)
    } else if v.orders[order_index(v.orders, s)].status != OrderStatus::Pending {
        Some(ContinuumError::NotPending)
    } else {
        None
    }
}

/// Why an immediate request on `pool_id` is refused, if it is.
pub open spec fn immediate_error(v: ContinuumView, pool_id: Seq<u8>) -> Option<ContinuumError> {
    if v.fifo_state.emergency_pause {
        Some(ContinuumError::Paused)
    } else if forward_error(v, pool_id) is Some {
        forward_error(v, pool_id)
    } else if v.fifo_state.current_sequence == u64::MAX {
        Some(ContinuumError::SequenceOverflow)
    } else {
        None
    }
}

// ---- helpers ----

proof fn lemma_order_index(orders: Seq<Order>, cur: u64, i: int, s: u64)
    requires
        ledger_wf(orders, cur),
        0 <= i < orders.len(),
        orders[i].sequence == s,
    ensures
        order_exists(orders, s),
        order_index(orders, s) == i,
{
    let k = order_index(orders, s);
    assert(0 <= k < orders.len() && orders[k].sequence == s);
    if k < i {
        assert(orders[k].sequence < orders[i].sequence);
    } else if i < k {
        assert(orders[i].sequence < orders[k].sequence);
    }
}

proof fn lemma_pool_index(reg: Seq<CpSwapPoolRegistry>, i: int, pool_id: Seq<u8>)
    requires
        registry_wf(reg),
        0 <= i < reg.len(),
        reg[i].pool_id@ == pool_id,
    ensures
        pool_known(reg, pool_id),
        pool_index(reg, pool_id) == i,
{
    let k = pool_index(reg, pool_id);
    assert(0 <= k < reg.len() && reg[k].pool_id@ == pool_id);
}

/// Checks custody of `pool_id` and builds the call of `op` on it.
fn plan_forward(
    c: &Continuum,
    pool_id: &Address,
    op: &AmmOperation,
    lead: LeadRole,
    accts: &Vec<AccountRef>,
) -> (r: Result<ForwardCall, ContinuumError>)
    requires
        c.wf(),
    ensures
        match r {
            Ok(call) => forward_error(c@, pool_id@) is None && call@ == forward_call(
                c@,
                pool_id@,
                *op,
                lead,
                accts@,
            ),
            Err(e) => forward_error(c@, pool_id@) == Some(e),
        },
{
    let i = match find_pool(&c.registry, pool_id) {
        Some(i) => i,
        None => return Err(ContinuumError::PoolNotRegistered),
    };
    proof {
        lemma_pool_index(c.registry@, i as int, pool_id@);
    }
    let entry = c.registry[i];
    if !entry.is_active {
        return Err(ContinuumError::PoolInactive);
    }
    let authority = derive_authority(&c.program_id, pool_id, entry.authority_bump)?;
    Ok(build_call(&c.amm_program, &authority, pool_id, entry.authority_bump, op, lead, accts))
}

/// Checks custody, issues the next sequence number and builds the call of `op`.
fn sequenced_forward(
    c: &mut Continuum,
    pool_id: &Address,
    op: &AmmOperation,
    lead: LeadRole,
    accts: &Vec<AccountRef>,
) -> (r: Result<(u64, ForwardCall), ContinuumError>)
    requires
        old(c).wf(),
    ensures
        final(c).wf(),
        match r {
            Ok((s, call)) => immediate_error(old(c)@, pool_id@) is None && s == next_sequence(
                old(c)@,
            ) && final(c)@ == with_sequence(old(c)@, s) && call@ == forward_call(
                old(c)@,
                pool_id@,
                *op,
                lead,
                accts@,
            ),
            Err(e) => immediate_error(old(c)@, pool_id@) == Some(e) && final(c)@ == old(c)@,
        },
{
    c.fifo_state.assert_not_paused()?;
    let call = plan_forward(c, pool_id, op, lead, accts)?;
    let s = c.fifo_state.advance_sequence()?;
    Ok((s, call))
}

// ---- entry points ----

/// Creates the state: counter at zero, not paused, no pools, no orders.
pub fn initialize(program_id: Address, admin: Address, amm_program: Address) -> (r: Continuum)
    ensures
        r.wf(),
        r@ == (ContinuumView {
            fifo_state: FifoState { current_sequence: 0, emergency_pause: false, admin },
            registry: Seq::empty(),
            orders: Seq::empty(),
            program_id,
            amm_program,
        }),
{
    let r = Continuum {
        fifo_state: FifoState { current_sequence: 0, emergency_pause: false, admin },
        registry: Vec::new(),
        orders: Vec::new(),
        program_id,
        amm_program,
    };
    assert(r@.registry =~= Seq::empty());
    assert(r@.orders =~= Seq::empty());
    r
}

/// Queues an order on a pool in custody and returns its record, which carries
/// the next sequence number. No call is forwarded.
pub fn submit_order(
    c: &mut Continuum,
    submitter: &Address,
    pool_id: &Address,
    amount_in: u64,
    min_amount_out: u64,
    direction: Direction,
) -> (r: Result<OrderSubmitted, ContinuumError>)
    requires
        old(c).wf(),
    ensures
        final(c).wf(),
        match r {
            Ok(ev) => {
                let o = submitted_order(
                    old(c)@,
                    *submitter,
                    *pool_id,
                    amount_in,
                    min_amount_out,
                    direction,
                );
                &&& submit_error(old(c)@, pool_id@) is None
                &&& final(c)@ == submit_post(old(c)@, o)
                &&& ev == (OrderSubmitted {
                    sequence: o.sequence,
                    submitter: *submitter,
                    pool_id: *pool_id,
                    amount_in,
                    min_amount_out,
                    direction,
                })
            },
            Err(e) => submit_error(old(c)@, pool_id@) == Some(e) && final(c)@ == old(c)@,
        },
{
    c.fifo_state.assert_not_paused()?;
    let i = match find_pool(&c.registry, pool_id) {
        Some(i) => i,
        None => return Err(ContinuumError::PoolNotRegistered),
    };
    proof {
        lemma_pool_index(c.registry@, i as int, pool_id@);
    }
    if !c.registry[i].is_active {
        return Err(ContinuumError::PoolInactive);
    }
    let sequence = c.fifo_state.advance_sequence()?;
    let o = Order {
        sequence,
        submitter: *submitter,
        pool_id: *pool_id,
        amount_in,
        min_amount_out,
        direction,
        status: OrderStatus::Pending,
    };
    c.orders.push(o);
    Ok(OrderSubmitted {
        sequence,
        submitter: *submitter,
        pool_id: *pool_id,
        amount_in,
        min_amount_out,
        direction,
    })
}

/// The direction a base-input flag stands for.
pub open spec fn direction_of(is_base_input: bool) -> Direction {
    if is_base_input {
        Direction::BaseIn
    } else {
        Direction::BaseOut
    }
}

/// `submit_order` with the direction given as a base-input flag.
pub fn submit_order_simple(
    c: &mut Continuum,
    submitter: &Address,
    pool_id: &Address,
    amount_in: u64,
    min_amount_out: u64,
    is_base_input: bool,
) -> (r: Result<OrderSubmitted, ContinuumError>)
    requires
        old(c).wf(),
    ensures
        final(c).wf(),
        match r {
            Ok(ev) => {
                let o = submitted_order(
                    old(c)@,
                    *submitter,
                    *pool_id,
                    amount_in,
                    min_amount_out,
                    direction_of(is_base_input),
                );
                &&& submit_error(old(c)@, pool_id@) is None
                &&& final(c)@ == submit_post(old(c)@, o)
                &&& ev == (OrderSubmitted {
                    sequence: o.sequence,
                    submitter: *submitter,
                    pool_id: *pool_id,
                    amount_in,
                    min_amount_out,
                    direction: o.direction,
                })
            },
            Err(e) => submit_error(old(c)@, pool_id@) == Some(e) && final(c)@ == old(c)@,
        },
{
    let direction = if is_base_input {
        Direction::BaseIn
    } else {
        Direction::BaseOut
    };
    submit_order(c, submitter, pool_id, amount_in, min_amount_out, direction)
}

/// Executes the pending order carrying `expected_sequence`, which must be the
/// earliest pending one, and returns its record with the swap call to forward.
/// The order is marked executed; if the forwarded call fails, the caller drops
/// the new state, and the order stays pending.
pub fn execute_order(c: &mut Continuum, expected_sequence: u64, accts: &Vec<AccountRef>) -> (r:
    Result<(OrderExecuted, ForwardCall), ContinuumError>)
    requires
        old(c).wf(),
    ensures
        final(c).wf(),
        match r {
            Ok((ev, call)) => {
                let o = old(c)@.orders[order_index(old(c)@.orders, expected_sequence)];
                &&& execute_error(old(c)@, expected_sequence) is None
                &&& final(c)@ == with_status(old(c)@, expected_sequence, OrderStatus::Executed)
                &&& call@ == forward_call(
                    old(c)@,
                    o.pool_id@,
                    order_swap(o),
                    LeadRole::Authority,
                    accts@,
                )
                &&& ev == (OrderExecuted {
                    sequence: expected_sequence,
                    pool_id: o.pool_id,
                    amount_in: o.amount_in,
                    min_amount_out: o.min_amount_out,
                })
            },
            Err(e) => execute_error(old(c)@, expected_sequence) == Some(e) && final(c)@ == old(c)@,
        },
{
    c.fifo_state.assert_not_paused()?;
    let i = match find_order(&c.orders, expected_sequence) {
        Some(i) => i,
        None => return Err(ContinuumError::SequenceMismatch),
    };
    proof {
        lemma_order_index(c.orders@, c.fifo_state.current_sequence, i as int, expected_sequence);
    }
    let o = c.orders[i];
    if o.status != OrderStatus::Pending {
        return Err(ContinuumError::NotPending);
    }
    if has_earlier_pending(&c.orders, expected_sequence) {
        return Err(ContinuumError::SequenceMismatch);
    }
    let op = AmmOperation::Swap { amount_in: o.amount_in, min_amount_out: o.min_amount_out };
    let call = plan_forward(c, &o.pool_id, &op, LeadRole::Authority, accts)?;
    let ghost before = c.orders@;
    c.orders.set(i, Order { status: OrderStatus::Executed, ..o });
    assert forall|a: int, b: int| 0 <= a < b < c.orders@.len() implies #[trigger] c.orders@[a].sequence
        < #[trigger] c.orders@[b].sequence by {
        assert(before[a].sequence < before[b].sequence);
    }
    assert forall|a: int| 0 <= a < c.orders@.len() implies #[trigger] c.orders@[a].sequence
        <= c.fifo_state.current_sequence by {
        assert(before[a].sequence <= c.fifo_state.current_sequence);
    }
    let ev = OrderExecuted {
        sequence: expected_sequence,
        pool_id: o.pool_id,
        amount_in: o.amount_in,
        min_amount_out: o.min_amount_out,
    };
    Ok((ev, call))
}

/// Cancels the pending order carrying `sequence`; only its submitter may.
pub fn cancel_order(c: &mut Continuum, caller: &Address, sequence: u64) -> (r: Result<
    OrderCancelled,
    ContinuumError,
>)
    requires
        old(c).wf(),
    ensures
        final(c).wf(),
        match r {
            Ok(ev) => {
                &&& cancel_error(old(c)@, caller@, sequence) is None
                &&& final(c)@ == with_status(old(c)@, sequence, OrderStatus::Cancelled)
                &&& ev == (OrderCancelled { sequence, submitter: *caller })
            },
            Err(e) => cancel_error(old(c)@, caller@, sequence) == Some(e) && final(c)@ == old(c)@,
        },
{
    c.fifo_state.assert_not_paused()?;
    let i = match find_order(&c.orders, sequence) {
        Some(i) => i,
        None => return Err(ContinuumError::SequenceMismatch),
    };
    proof {
        lemma_order_index(c.orders@, c.fifo_state.current_sequence, i as int, sequence);
    }
    let o = c.orders[i];
    if !o.submitter.same_as(caller) {
        return Err(ContinuumError::Unauthorized);
    }
    if o.status != OrderStatus::Pending {
        return Err(ContinuumError::NotPending);
    }
    let ghost before = c.orders@;
    c.orders.set(i, Order { status: OrderStatus::Cancelled, ..o });
    assert forall|a: int, b: int| 0 <= a < b < c.orders@.len() implies #[trigger] c.orders@[a].sequence
        < #[trigger] c.orders@[b].sequence by {
        assert(before[a].sequence < before[b].sequence);
    }
    assert forall|a: int| 0 <= a < c.orders@.len() implies #[trigger] c.orders@[a].sequence
        <= c.fifo_state.current_sequence by {
        assert(before[a].sequence <= c.fifo_state.current_sequence);
    }
    Ok(OrderCancelled { sequence, submitter: *caller })
}

/// Issues the next sequence number and the exact-input swap call in one step,
/// without a ledger entry. The declared direction is only recorded.
pub fn swap_immediate(
    c: &mut Continuum,
    amount_in: u64,
    min_amount_out: u64,
    is_base_input: bool,
    pool_id: &Address,
    accts: &Vec<AccountRef>,
) -> (r: Result<(SwapExecuted, ForwardCall), ContinuumError>)
    requires
        old(c).wf(),
    ensures
        final(c).wf(),
        match r {
            Ok((ev, call)) => {
                let s = next_sequence(old(c)@);
                &&& immediate_error(old(c)@, pool_id@) is None
                &&& final(c)@ == with_sequence(old(c)@, s)
                &&& call@ == forward_call(old(c)@, pool_id@, AmmOperation::Swap { amount_in, min_amount_out }, LeadRole::Authority, accts@)
                &&& ev == (SwapExecuted { sequence: s, pool_id: *pool_id, amount_in, is_base_input })
            },
            Err(e) => immediate_error(old(c)@, pool_id@) == Some(e) && final(c)@ == old(c)@,
        },
{
    let op = AmmOperation::Swap { amount_in, min_amount_out };
    let (sequence, call) = sequenced_forward(c, pool_id, &op, LeadRole::Authority, accts)?;
    Ok((SwapExecuted { sequence, pool_id: *pool_id, amount_in, is_base_input }, call))
}

/// Issues the next sequence number and the deposit call on a pool in custody;
/// the owning user, the first supplied account, takes the first role.
pub fn deposit_liquidity(
    c: &mut Continuum,
    lp_token_amount: u64,
    maximum_token_0_amount: u64,
    maximum_token_1_amount: u64,
    pool_id: &Address,
    accts: &Vec<AccountRef>,
) -> (r: Result<(LiquidityDeposited, ForwardCall), ContinuumError>)
    requires
        old(c).wf(),
    ensures
        final(c).wf(),
        match r {
            Ok((ev, call)) => {
                let s = next_sequence(old(c)@);
                &&& immediate_error(old(c)@, pool_id@) is None
                &&& final(c)@ == with_sequence(old(c)@, s)
                &&& call@ == forward_call(old(c)@, pool_id@, AmmOperation::Deposit { lp_amount: lp_token_amount, max_token_0: maximum_token_0_amount, max_token_1: maximum_token_1_amount }, LeadRole::Owner, accts@)
                &&& ev == (LiquidityDeposited { sequence: s, pool_id: *pool_id, min_lp_amount: lp_token_amount })
            },
            Err(e) => immediate_error(old(c)@, pool_id@) == Some(e) && final(c)@ == old(c)@,
        },
{
    let op = AmmOperation::Deposit {
        lp_amount: lp_token_amount,
        max_token_0: maximum_token_0_amount,
        max_token_1: maximum_token_1_amount,
    };
    let (sequence, call) = sequenced_forward(c, pool_id, &op, LeadRole::Owner, accts)?;
    Ok((LiquidityDeposited { sequence, pool_id: *pool_id, min_lp_amount: lp_token_amount }, call))
}

/// Issues the next sequence number and the withdrawal call on a pool in
/// custody; the owning user, the first supplied account, takes the first role.
pub fn withdraw_liquidity(
    c: &mut Continuum,
    lp_token_amount: u64,
    minimum_token_0_amount: u64,
    minimum_token_1_amount: u64,
    pool_id: &Address,
    accts: &Vec<AccountRef>,
) -> (r: Result<(LiquidityWithdrawn, ForwardCall), ContinuumError>)
    requires
        old(c).wf(),
    ensures
        final(c).wf(),
        match r {
            Ok((ev, call)) => {
                let s = next_sequence(old(c)@);
                &&& immediate_error(old(c)@, pool_id@) is None
                &&& final(c)@ == with_sequence(old(c)@, s)
                &&& call@ == forward_call(old(c)@, pool_id@, AmmOperation::Withdraw { lp_amount: lp_token_amount, min_token_0: minimum_token_0_amount, min_token_1: minimum_token_1_amount }, LeadRole::Owner, accts@)
                &&& ev == (LiquidityWithdrawn { sequence: s, pool_id: *pool_id, lp_amount: lp_token_amount })
            },
            Err(e) => immediate_error(old(c)@, pool_id@) == Some(e) && final(c)@ == old(c)@,
        },
{
    let op = AmmOperation::Withdraw {
        lp_amount: lp_token_amount,
        min_token_0: minimum_token_0_amount,
        min_token_1: minimum_token_1_amount,
    };
    let (sequence, call) = sequenced_forward(c, pool_id, &op, LeadRole::Owner, accts)?;
    Ok((LiquidityWithdrawn { sequence, pool_id: *pool_id, lp_amount: lp_token_amount }, call))
}

/// The same request as `deposit_liquidity`.
pub fn deposit_lp(
    c: &mut Continuum,
    min_lp_amount: u64,
    max_amount_0: u64,
    max_amount_1: u64,
    pool_id: &Address,
    accts: &Vec<AccountRef>,
) -> (r: Result<(LiquidityDeposited, ForwardCall), ContinuumError>)
    requires
        old(c).wf(),
    ensures
        final(c).wf(),
        match r {
            Ok((ev, call)) => {
                let s = next_sequence(old(c)@);
                &&& immediate_error(old(c)@, pool_id@) is None
                &&& final(c)@ == with_sequence(old(c)@, s)
                &&& call@ == forward_call(old(c)@, pool_id@, AmmOperation::Deposit { lp_amount: min_lp_amount, max_token_0: max_amount_0, max_token_1: max_amount_1 }, LeadRole::Owner, accts@)
                &&& ev == (LiquidityDeposited { sequence: s, pool_id: *pool_id, min_lp_amount: min_lp_amount })
            },
            Err(e) => immediate_error(old(c)@, pool_id@) == Some(e) && final(c)@ == old(c)@,
        },
{
    deposit_liquidity(c, min_lp_amount, max_amount_0, max_amount_1, pool_id, accts)
}

/// The same request as `withdraw_liquidity`.
pub fn withdraw_lp(
    c: &mut Continuum,
    lp_amount: u64,
    min_amount_0: u64,
    min_amount_1: u64,
    pool_id: &Address,
    accts: &Vec<AccountRef>,
) -> (r: Result<(LiquidityWithdrawn, ForwardCall), ContinuumError>)
    requires
        old(c).wf(),
    ensures
        final(c).wf(),
        match r {
            Ok((ev, call)) => {
                let s = next_sequence(old(c)@);
                &&& immediate_error(old(c)@, pool_id@) is None
                &&& final(c)@ == with_sequence(old(c)@, s)
                &&& call@ == forward_call(old(c)@, pool_id@, AmmOperation::Withdraw { lp_amount, min_token_0: min_amount_0, min_token_1: min_amount_1 }, LeadRole::Owner, accts@)
                &&& ev == (LiquidityWithdrawn { sequence: s, pool_id: *pool_id, lp_amount: lp_amount })
            },
            Err(e) => immediate_error(old(c)@, pool_id@) == Some(e) && final(c)@ == old(c)@,
        },
{
    withdraw_liquidity(c, lp_amount, min_amount_0, min_amount_1, pool_id, accts)
}

/// Why `caller` may not bring `pool_id` into custody with `bump`, if it may not.
pub open spec fn custody_error(v: ContinuumView, caller: Seq<u8>, pool_id: Seq<u8>, bump: u8) -> Option<
    ContinuumError,
> {
    if v.fifo_state.emergency_pause {
        Some(ContinuumError::Paused)
    } else if caller != v.fifo_state.admin@ {
        Some(ContinuumError::Unauthorized)
    } else if authority_of(v.program_id@, pool_id, bump) is None {
        Some(ContinuumError::InvalidAuthority)
    } else {
        None
    }
}

/// The registry with `e` recorded: its pool's entry replaced, or added.
pub open spec fn registered(reg: Seq<CpSwapPoolRegistry>, e: CpSwapPoolRegistry) -> Seq<
    CpSwapPoolRegistry,
> {
    if pool_known(reg, e.pool_id@) {
        reg.update(pool_index(reg, e.pool_id@), e)
    } else {
        reg.push(e)
    }
}

/// Brings a pool into custody (or back into it) with the bump of its delegated
/// authority; only the admin may, and only with a bump that derives an authority.
pub fn initialize_cp_swap_pool(
    c: &mut Continuum,
    caller: &Address,
    pool_id: &Address,
    authority_bump: u8,
) -> (r: Result<(), ContinuumError>)
    requires
        old(c).wf(),
    ensures
        final(c).wf(),
        match r {
            Ok(()) => custody_error(old(c)@, caller@, pool_id@, authority_bump) is None
                && final(c)@ == (ContinuumView {
                registry: registered(
                    old(c)@.registry,
                    CpSwapPoolRegistry { pool_id: *pool_id, is_active: true, authority_bump },
                ),
                ..old(c)@
            }),
            Err(e) => custody_error(old(c)@, caller@, pool_id@, authority_bump) == Some(e)
                && final(c)@ == old(c)@,
        },
{
    c.fifo_state.assert_not_paused()?;
    if !caller.same_as(&c.fifo_state.admin) {
        return Err(ContinuumError::Unauthorized);
    }
    derive_authority(&c.program_id, pool_id, authority_bump)?;
    let e = CpSwapPoolRegistry { pool_id: *pool_id, is_active: true, authority_bump };
    let ghost before = c.registry@;
    match find_pool(&c.registry, pool_id) {
        Some(i) => {
            proof {
                lemma_pool_index(c.registry@, i as int, pool_id@);
            }
            c.registry.set(i, e);
            assert(c.registry@ == before.update(i as int, e));
            assert forall|a: int, b: int|
                0 <= a < c.registry@.len() && 0 <= b < c.registry@.len()
                    && #[trigger] c.registry@[a].pool_id@ == #[trigger] c.registry@[b].pool_id@ implies a
                == b by {
                if a != i && b != i {
                    assert(before[a].pool_id@ == before[b].pool_id@);
                } else if a == i && b != i {
                    assert(before[i as int].pool_id@ == before[b].pool_id@);
                } else if b == i && a != i {
                    assert(before[a].pool_id@ == before[i as int].pool_id@);
                }
            }
        },
        None => {
            c.registry.push(e);
            assert forall|a: int, b: int|
                0 <= a < c.registry@.len() && 0 <= b < c.registry@.len()
                    && #[trigger] c.registry@[a].pool_id@ == #[trigger] c.registry@[b].pool_id@ implies a
                == b by {
                if a < before.len() && b < before.len() {
                    assert(before[a].pool_id@ == before[b].pool_id@);
                } else if a < before.len() {
                    assert(before[a].pool_id@ == pool_id@);
                } else if b < before.len() {
                    assert(before[b].pool_id@ == pool_id@);
                }
            }
        },
    }
    Ok(())
}

/// Why `caller` may not end custody of `pool_id`, if it may not.
pub open spec fn release_error(v: ContinuumView, caller: Seq<u8>, pool_id: Seq<u8>) -> Option<
    ContinuumError,
> {
    if v.fifo_state.emergency_pause {
        Some(ContinuumError::Paused)
    } else if caller != v.fifo_state.admin@ {
        Some(ContinuumError::Unauthorized)
    } else if !pool_known(v.registry, pool_id) {
        Some(ContinuumError::PoolNotRegistered)
    } else {
        None
    }
}

/// Ends custody of a pool: its entry stays, inactive. Only the admin may.
pub fn deactivate_pool(c: &mut Continuum, caller: &Address, pool_id: &Address) -> (r: Result<
    (),
    ContinuumError,
>)
    requires
        old(c).wf(),
    ensures
        final(c).wf(),
        match r {
            Ok(()) => {
                let i = pool_index(old(c)@.registry, pool_id@);
                &&& release_error(old(c)@, caller@, pool_id@) is None
                &&& final(c)@ == (ContinuumView {
                    registry: old(c)@.registry.update(
                        i,
                        CpSwapPoolRegistry { is_active: false, ..old(c)@.registry[i] },
                    ),
                    ..old(c)@
                })
            },
            Err(e) => release_error(old(c)@, caller@, pool_id@) == Some(e) && final(c)@ == old(c)@,
        },
{
    c.fifo_state.assert_not_paused()?;
    if !caller.same_as(&c.fifo_state.admin) {
        return Err(ContinuumError::Unauthorized);
    }
    let i = match find_pool(&c.registry, pool_id) {
        Some(i) => i,
        None => return Err(ContinuumError::PoolNotRegistered),
    };
    proof {
        lemma_pool_index(c.registry@, i as int, pool_id@);
    }
    let ghost before = c.registry@;
    let e = c.registry[i];
    c.registry.set(i, CpSwapPoolRegistry { is_active: false, ..e });
    assert forall|a: int, b: int|
        0 <= a < c.registry@.len() && 0 <= b < c.registry@.len() && #[trigger] c.registry@[a].pool_id@
            == #[trigger] c.registry@[b].pool_id@ implies a == b by {
        assert(before[a].pool_id@ == before[b].pool_id@);
    }
    Ok(())
}

/// Turns the emergency pause on or off; only the admin may. Works while paused.
pub fn set_pause(c: &mut Continuum, caller: &Address, paused: bool) -> (r: Result<
    (),
    ContinuumError,
>)
    requires
        old(c).wf(),
    ensures
        final(c).wf(),
        caller@ == old(c)@.fifo_state.admin@ ==> r == Ok::<(), ContinuumError>(()) && final(c)@
            == with_pause(old(c)@, paused),
        caller@ != old(c)@.fifo_state.admin@ ==> r == Err::<(), ContinuumError>(
            ContinuumError::Unauthorized,
        ) && final(c)@ == old(c)@,
{
    c.fifo_state.set_pause(caller, paused)
}

} // verus!
