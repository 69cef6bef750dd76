use continuum_cp_swap::address::Address;
use continuum_cp_swap::engine::{
    deposit_liquidity, deposit_lp, initialize, initialize_cp_swap_pool, swap_immediate,
    withdraw_liquidity, withdraw_lp, Continuum,
};
use continuum_cp_swap::forward::{
    authority_seeds, derive_authority, map_roles, AccountRef, AccountRole, CpSwapWithdrawAccounts,
    LeadRole,
};
use continuum_cp_swap::wire::{encode_operation, push_le_u64, AmmOperation};
use solana_program::pubkey::Pubkey;

fn addr(n: u8) -> Address {
    Address::new([n; 32])
}

fn refs() -> Vec<AccountRef> {
    vec![
        AccountRef { key: addr(20), is_signer: true, is_writable: true },
        AccountRef { key: addr(21), is_signer: true, is_writable: true },
        AccountRef { key: addr(22), is_signer: false, is_writable: false },
    ]
}

fn setup() -> (Continuum, u8) {
    let mut c = initialize(addr(2), addr(1), addr(3));
    let mut bump: u8 = 255;
    while derive_authority(&c.program_id, &addr(10), bump).is_err() {
        bump -= 1;
    }
    initialize_cp_swap_pool(&mut c, &addr(1), &addr(10), bump).unwrap();
    (c, bump)
}

#[test]
fn little_endian_encoding() {
    let mut out = vec![7u8];
    push_le_u64(&mut out, 0x0102_0304_0506_0708);
    assert_eq!(out, vec![7, 8, 7, 6, 5, 4, 3, 2, 1]);
    let mut max = Vec::new();
    push_le_u64(&mut max, u64::MAX);
    assert_eq!(max, vec![255; 8]);
}

#[test]
fn swap_data_layout() {
    let data = encode_operation(&AmmOperation::Swap { amount_in: 100, min_amount_out: 95 });
    let mut want = vec![143, 190, 90, 218, 196, 30, 51, 222];
    want.extend_from_slice(&100u64.to_le_bytes());
    want.extend_from_slice(&95u64.to_le_bytes());
    assert_eq!(data, want);
}

#[test]
fn deposit_and_withdraw_data_layout() {
    let d = encode_operation(&AmmOperation::Deposit { lp_amount: 1, max_token_0: 2, max_token_1: 3 });
    assert_eq!(d.len(), 32);
    assert_eq!(&d[0..8], &[242, 35, 198, 137, 82, 225, 242, 182]);
    assert_eq!(&d[8..16], &1u64.to_le_bytes());
    assert_eq!(&d[16..24], &2u64.to_le_bytes());
    assert_eq!(&d[24..32], &3u64.to_le_bytes());
    let w = encode_operation(&AmmOperation::Withdraw { lp_amount: 9, min_token_0: 8, min_token_1: 7 });
    assert_eq!(&w[0..8], &[183, 18, 70, 156, 148, 109, 161, 34]);
    assert_eq!(&w[8..16], &9u64.to_le_bytes());
    assert_eq!(&w[16..24], &8u64.to_le_bytes());
    assert_eq!(&w[24..32], &7u64.to_le_bytes());
}

#[test]
fn authority_leads_the_role_list() {
    let roles = map_roles(LeadRole::Authority, &addr(5), &refs());
    assert_eq!(
        roles,
        vec![
            AccountRole { key: addr(5), is_signer: true, is_writable: false },
            AccountRole { key: addr(20), is_signer: false, is_writable: true },
            AccountRole { key: addr(21), is_signer: false, is_writable: true },
            AccountRole { key: addr(22), is_signer: false, is_writable: false },
        ]
    );
}

#[test]
fn owner_leads_the_role_list() {
    let roles = map_roles(LeadRole::Owner, &addr(5), &refs());
    assert_eq!(
        roles,
        vec![
            AccountRole { key: addr(20), is_signer: true, is_writable: false },
            AccountRole { key: addr(21), is_signer: false, is_writable: true },
            AccountRole { key: addr(22), is_signer: false, is_writable: false },
        ]
    );
    assert!(map_roles(LeadRole::Owner, &addr(5), &Vec::new()).is_empty());
}

#[test]
fn authority_seed_layout() {
    let seeds = authority_seeds(&addr(10), 254);
    assert_eq!(seeds, vec![b"cp_pool_authority".to_vec(), vec![10u8; 32], vec![254u8]]);
}

#[test]
fn derived_authority_matches_program_address() {
    let (c, bump) = setup();
    let a = derive_authority(&c.program_id, &addr(10), bump).unwrap();
    let want = Pubkey::create_program_address(
        &[b"cp_pool_authority", &[10u8; 32], &[bump]],
        &Pubkey::new_from_array([2u8; 32]),
    )
    .unwrap();
    assert_eq!(a.bytes, want.to_bytes());
    assert_ne!(a, addr(10));
}

#[test]
fn immediate_call_is_signed_by_pool_authority() {
    let (mut c, bump) = setup();
    let authority = derive_authority(&c.program_id, &addr(10), bump).unwrap();
    let (_, call) = swap_immediate(&mut c, 10, 1, false, &addr(10), &refs()).unwrap();
    assert_eq!(call.accounts[0], AccountRole { key: authority, is_signer: true, is_writable: false });
    assert_eq!(call.signer_seeds, authority_seeds(&addr(10), bump));
    assert_eq!(call.data, encode_operation(&AmmOperation::Swap { amount_in: 10, min_amount_out: 1 }));
}

#[test]
fn deposit_forwards_with_owner_first() {
    let (mut c, bump) = setup();
    let (ev, call) = deposit_liquidity(&mut c, 100, 200, 300, &addr(10), &refs()).unwrap();
    assert_eq!(ev.sequence, 1);
    assert_eq!(ev.min_lp_amount, 100);
    assert_eq!(call.program_id, addr(3));
    assert_eq!(call.accounts[0], AccountRole { key: addr(20), is_signer: true, is_writable: false });
    assert_eq!(call.accounts.len(), 3);
    assert_eq!(
        call.data,
        encode_operation(&AmmOperation::Deposit { lp_amount: 100, max_token_0: 200, max_token_1: 300 })
    );
    assert_eq!(call.signer_seeds, authority_seeds(&addr(10), bump));
    let (ev2, call2) = deposit_lp(&mut c, 100, 200, 300, &addr(10), &refs()).unwrap();
    assert_eq!(ev2.sequence, 2);
    assert_eq!(call2, call);
}

#[test]
fn withdraw_forwards_with_owner_first() {
    let (mut c, _) = setup();
    let (ev, call) = withdraw_liquidity(&mut c, 40, 5, 6, &addr(10), &refs()).unwrap();
    assert_eq!(ev.sequence, 1);
    assert_eq!(ev.lp_amount, 40);
    assert_eq!(
        call.data,
        encode_operation(&AmmOperation::Withdraw { lp_amount: 40, min_token_0: 5, min_token_1: 6 })
    );
    let (ev2, call2) = withdraw_lp(&mut c, 40, 5, 6, &addr(10), &refs()).unwrap();
    assert_eq!(ev2.sequence, 2);
    assert_eq!(call2, call);
    assert_eq!(c.fifo_state.current_sequence, 2);
}

#[test]
fn named_withdraw_accounts_keep_engine_order() {
    let named = CpSwapWithdrawAccounts {
        owner: addr(40),
        pool_state: addr(41),
        lp_mint: addr(42),
        user_token_0: addr(43),
        user_token_1: addr(44),
        user_lp: addr(45),
        token_0_vault: addr(46),
        token_1_vault: addr(47),
        token_program: addr(48),
        token_program_2022: addr(49),
        vault_0_mint: addr(50),
        memo_program: addr(51),
    };
    let refs = named.to_account_refs();
    assert_eq!(refs.len(), 12);
    assert_eq!(refs[0], AccountRef { key: addr(40), is_signer: true, is_writable: false });
    for (i, r) in refs.iter().enumerate().skip(1) {
        assert_eq!(*r, AccountRef { key: addr(40 + i as u8), is_signer: false, is_writable: true });
    }
    let roles = map_roles(LeadRole::Owner, &addr(5), &refs);
    assert_eq!(roles[0], AccountRole { key: addr(40), is_signer: true, is_writable: false });
    assert!(roles[1..].iter().all(|r| r.is_writable && !r.is_signer));
}
