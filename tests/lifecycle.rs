use continuum_cp_swap::address::Address;
use continuum_cp_swap::engine::{
    cancel_order, deactivate_pool, execute_order, initialize, initialize_cp_swap_pool, set_pause,
    submit_order, submit_order_simple, swap_immediate, Continuum,
};
use continuum_cp_swap::error::ContinuumError;
use continuum_cp_swap::forward::{derive_authority, AccountRef};
use continuum_cp_swap::state::{Direction, OrderStatus};

fn addr(n: u8) -> Address {
    Address::new([n; 32])
}

fn admin() -> Address {
    addr(1)
}

fn pool_a() -> Address {
    addr(10)
}

fn pool_b() -> Address {
    addr(11)
}

fn usable_bump(c: &Continuum, pool: &Address) -> u8 {
    let mut bump: u8 = 255;
    loop {
        if derive_authority(&c.program_id, pool, bump).is_ok() {
            return bump;
        }
        bump -= 1;
    }
}

fn setup() -> Continuum {
    let mut c = initialize(addr(2), admin(), addr(3));
    for pool in [pool_a(), pool_b()] {
        let bump = usable_bump(&c, &pool);
        initialize_cp_swap_pool(&mut c, &admin(), &pool, bump).unwrap();
    }
    c
}

fn accounts() -> Vec<AccountRef> {
    vec![
        AccountRef { key: addr(20), is_signer: true, is_writable: true },
        AccountRef { key: addr(21), is_signer: false, is_writable: true },
        AccountRef { key: addr(22), is_signer: false, is_writable: false },
    ]
}

#[test]
fn fifo_execution_order_scenario() {
    let mut c = setup();
    let user = addr(30);
    let s1 = submit_order(&mut c, &user, &pool_a(), 100, 95, Direction::BaseIn).unwrap();
    assert_eq!(s1.sequence, 1);
    let s2 = submit_order(&mut c, &user, &pool_a(), 50, 10, Direction::BaseOut).unwrap();
    assert_eq!(s2.sequence, 2);
    let before = c.clone();
    assert_eq!(
        execute_order(&mut c, 2, &accounts()).unwrap_err(),
        ContinuumError::SequenceMismatch
    );
    assert_eq!(c.orders, before.orders);
    let (ev, call) = execute_order(&mut c, 1, &accounts()).unwrap();
    assert_eq!(ev.sequence, 1);
    assert_eq!(ev.amount_in, 100);
    assert_eq!(ev.min_amount_out, 95);
    assert_eq!(c.orders[0].status, OrderStatus::Executed);
    assert_eq!(c.orders[1].status, OrderStatus::Pending);
    assert_eq!(call.program_id, addr(3));
    let (ev2, call2) = execute_order(&mut c, 2, &accounts()).unwrap();
    assert_eq!(ev2.sequence, 2);
    assert_eq!(c.orders[1].status, OrderStatus::Executed);
    // the base-output order still goes out as an exact-input swap
    assert_eq!(&call2.data[0..8], &[143, 190, 90, 218, 196, 30, 51, 222]);
    assert_eq!(&call2.data[8..16], &50u64.to_le_bytes());
    assert_eq!(&call2.data[16..24], &10u64.to_le_bytes());
}

#[test]
fn cancel_then_retry_scenario() {
    let mut c = setup();
    c.fifo_state.current_sequence = 4;
    let user = addr(30);
    let s = submit_order(&mut c, &user, &pool_a(), 7, 1, Direction::BaseIn).unwrap();
    assert_eq!(s.sequence, 5);
    let ev = cancel_order(&mut c, &user, 5).unwrap();
    assert_eq!(ev.sequence, 5);
    assert_eq!(c.orders[0].status, OrderStatus::Cancelled);
    assert_eq!(cancel_order(&mut c, &user, 5).unwrap_err(), ContinuumError::NotPending);
    assert_eq!(execute_order(&mut c, 5, &accounts()).unwrap_err(), ContinuumError::NotPending);
    assert_eq!(c.orders[0].status, OrderStatus::Cancelled);
}

#[test]
fn immediate_swap_scenario() {
    let mut c = setup();
    let before = c.fifo_state.current_sequence;
    let (ev, call) = swap_immediate(&mut c, 10, 1, true, &pool_b(), &accounts()).unwrap();
    assert_eq!(c.fifo_state.current_sequence, before + 1);
    assert_eq!(ev.sequence, before + 1);
    assert_eq!(ev.pool_id, pool_b());
    assert_eq!(ev.amount_in, 10);
    assert!(ev.is_base_input);
    assert!(c.orders.is_empty());
    assert_eq!(call.accounts.len(), 4);
}

#[test]
fn submissions_are_consecutive() {
    let mut c = setup();
    let user = addr(30);
    let mut got = Vec::new();
    for i in 0..5u64 {
        got.push(submit_order_simple(&mut c, &user, &pool_a(), i + 1, 0, i % 2 == 0).unwrap().sequence);
    }
    assert_eq!(got, vec![1, 2, 3, 4, 5]);
    assert_eq!(c.orders[1].direction, Direction::BaseOut);
    // a refused submission consumes no number
    assert_eq!(
        submit_order(&mut c, &user, &addr(99), 1, 0, Direction::BaseIn).unwrap_err(),
        ContinuumError::PoolNotRegistered
    );
    assert_eq!(submit_order(&mut c, &user, &pool_b(), 1, 0, Direction::BaseIn).unwrap().sequence, 6);
}

#[test]
fn unknown_sequence_is_mismatch() {
    let mut c = setup();
    submit_order(&mut c, &addr(30), &pool_a(), 1, 0, Direction::BaseIn).unwrap();
    let before = c.clone();
    assert_eq!(execute_order(&mut c, 99, &accounts()).unwrap_err(), ContinuumError::SequenceMismatch);
    assert_eq!(execute_order(&mut c, 0, &accounts()).unwrap_err(), ContinuumError::SequenceMismatch);
    assert_eq!(c.orders, before.orders);
    assert_eq!(c.fifo_state, before.fifo_state);
    assert_eq!(cancel_order(&mut c, &addr(30), 99).unwrap_err(), ContinuumError::SequenceMismatch);
}

#[test]
fn executed_order_cannot_be_cancelled() {
    let mut c = setup();
    let user = addr(30);
    submit_order(&mut c, &user, &pool_a(), 1, 0, Direction::BaseIn).unwrap();
    execute_order(&mut c, 1, &accounts()).unwrap();
    assert_eq!(cancel_order(&mut c, &user, 1).unwrap_err(), ContinuumError::NotPending);
    assert_eq!(execute_order(&mut c, 1, &accounts()).unwrap_err(), ContinuumError::NotPending);
    assert_eq!(c.orders[0].status, OrderStatus::Executed);
}

#[test]
fn cancelled_order_frees_the_queue() {
    let mut c = setup();
    let user = addr(30);
    submit_order(&mut c, &user, &pool_a(), 1, 0, Direction::BaseIn).unwrap();
    submit_order(&mut c, &user, &pool_a(), 2, 0, Direction::BaseIn).unwrap();
    cancel_order(&mut c, &user, 1).unwrap();
    let (ev, _) = execute_order(&mut c, 2, &accounts()).unwrap();
    assert_eq!(ev.sequence, 2);
}

#[test]
fn only_submitter_may_cancel() {
    let mut c = setup();
    let user = addr(30);
    submit_order(&mut c, &user, &pool_a(), 1, 0, Direction::BaseIn).unwrap();
    assert_eq!(cancel_order(&mut c, &addr(31), 1).unwrap_err(), ContinuumError::Unauthorized);
    assert_eq!(cancel_order(&mut c, &admin(), 1).unwrap_err(), ContinuumError::Unauthorized);
    assert_eq!(c.orders[0].status, OrderStatus::Pending);
    let ev = cancel_order(&mut c, &user, 1).unwrap();
    assert_eq!(ev.submitter, user);
}

#[test]
fn pause_blocks_and_unpause_resumes() {
    let mut c = setup();
    let user = addr(30);
    submit_order(&mut c, &user, &pool_a(), 1, 0, Direction::BaseIn).unwrap();
    submit_order(&mut c, &user, &pool_a(), 1, 0, Direction::BaseIn).unwrap();
    assert_eq!(set_pause(&mut c, &user, true).unwrap_err(), ContinuumError::Unauthorized);
    set_pause(&mut c, &admin(), true).unwrap();
    let before = c.clone();
    assert_eq!(
        submit_order(&mut c, &user, &pool_a(), 1, 0, Direction::BaseIn).unwrap_err(),
        ContinuumError::Paused
    );
    assert_eq!(execute_order(&mut c, 1, &accounts()).unwrap_err(), ContinuumError::Paused);
    assert_eq!(cancel_order(&mut c, &user, 1).unwrap_err(), ContinuumError::Paused);
    assert_eq!(
        swap_immediate(&mut c, 1, 0, true, &pool_a(), &accounts()).unwrap_err(),
        ContinuumError::Paused
    );
    assert_eq!(c.orders, before.orders);
    assert_eq!(c.fifo_state, before.fifo_state);
    set_pause(&mut c, &admin(), false).unwrap();
    assert_eq!(c.fifo_state.current_sequence, 2);
    assert_eq!(submit_order(&mut c, &user, &pool_a(), 1, 0, Direction::BaseIn).unwrap().sequence, 3);
}

#[test]
fn inactive_or_missing_pool_is_never_forwarded() {
    let mut c = setup();
    let user = addr(30);
    submit_order(&mut c, &user, &pool_a(), 1, 0, Direction::BaseIn).unwrap();
    assert_eq!(deactivate_pool(&mut c, &user, &pool_a()).unwrap_err(), ContinuumError::Unauthorized);
    deactivate_pool(&mut c, &admin(), &pool_a()).unwrap();
    assert!(!c.registry[0].is_active);
    assert_eq!(execute_order(&mut c, 1, &accounts()).unwrap_err(), ContinuumError::PoolInactive);
    assert_eq!(c.orders[0].status, OrderStatus::Pending);
    let seq = c.fifo_state.current_sequence;
    assert_eq!(
        swap_immediate(&mut c, 1, 0, true, &pool_a(), &accounts()).unwrap_err(),
        ContinuumError::PoolInactive
    );
    assert_eq!(
        swap_immediate(&mut c, 1, 0, true, &addr(99), &accounts()).unwrap_err(),
        ContinuumError::PoolNotRegistered
    );
    assert_eq!(
        submit_order(&mut c, &user, &pool_a(), 1, 0, Direction::BaseIn).unwrap_err(),
        ContinuumError::PoolInactive
    );
    assert_eq!(
        deactivate_pool(&mut c, &admin(), &addr(99)).unwrap_err(),
        ContinuumError::PoolNotRegistered
    );
    assert_eq!(c.fifo_state.current_sequence, seq);
    // custody can be restored
    let bump = c.registry[0].authority_bump;
    initialize_cp_swap_pool(&mut c, &admin(), &pool_a(), bump).unwrap();
    assert_eq!(c.registry.len(), 2);
    assert!(execute_order(&mut c, 1, &accounts()).is_ok());
}

#[test]
fn counter_never_wraps() {
    let mut c = setup();
    c.fifo_state.current_sequence = u64::MAX;
    assert_eq!(
        submit_order(&mut c, &addr(30), &pool_a(), 1, 0, Direction::BaseIn).unwrap_err(),
        ContinuumError::SequenceOverflow
    );
    assert_eq!(
        swap_immediate(&mut c, 1, 0, true, &pool_a(), &accounts()).unwrap_err(),
        ContinuumError::SequenceOverflow
    );
    assert_eq!(c.fifo_state.current_sequence, u64::MAX);
}

#[test]
fn custody_needs_admin_and_derivable_bump() {
    let mut c = initialize(addr(2), admin(), addr(3));
    assert_eq!(
        initialize_cp_swap_pool(&mut c, &addr(30), &pool_a(), 255).unwrap_err(),
        ContinuumError::Unauthorized
    );
    let mut bad: Option<u8> = None;
    for b in (0..=255u8).rev() {
        if derive_authority(&c.program_id, &pool_a(), b).is_err() {
            bad = Some(b);
            break;
        }
    }
    let bad = bad.expect("some bump lands on the curve");
    assert_eq!(
        initialize_cp_swap_pool(&mut c, &admin(), &pool_a(), bad).unwrap_err(),
        ContinuumError::InvalidAuthority
    );
    assert!(c.registry.is_empty());
}
