//! Building the forwarded call: the account-role list handed to the AMM
//! engine and the seeds of the pool's delegated authority.
use vstd::prelude::*;
use crate::address::Address;
use crate::error::ContinuumError;
use crate::wire::{AmmOperation, encode_operation, operation_bytes};

verus! {

/// An account as the caller supplied it, in the engine's positional order.
#[derive(Clone, Copy, Debug, PartialEq, Eq)]
pub struct AccountRef {
    pub key: Address,
    pub is_signer: bool,
    pub is_writable: bool,
}

/// An account as it is handed to the engine.
#[derive(Clone, Copy, Debug, PartialEq, Eq)]
pub struct AccountRole {
    pub key: Address,
    pub is_signer: bool,
    pub is_writable: bool,
}

/// Which identity takes the first role of the call.
#[derive(Clone, Copy, Debug, PartialEq, Eq, Structural)]
pub enum LeadRole {
    /// The pool's delegated authority comes first; every supplied account follows.
    Authority,
    /// The first supplied account (the owning user) comes first.
    Owner,
}

/// What the engine is told of one account.
pub struct RoleView {
    pub key: Seq<u8>,
    pub is_signer: bool,
    pub is_writable: bool,
}

impl View for AccountRole {
    type V = RoleView;

    open spec fn view(&self) -> RoleView {
        RoleView { key: self.key@, is_signer: self.is_signer, is_writable: self.is_writable }
    }
}

/// What a list of roles holds.
pub open spec fn roles_view(r: Seq<AccountRole>) -> Seq<RoleView> {
    r.map_values(|x: AccountRole| x@)
}

/// The first role: a read-only co-signer.
pub open spec fn lead_role(key: Seq<u8>) -> RoleView {
    RoleView { key, is_signer: true, is_writable: false }
}

/// A role after the first: writability as declared, never a signer.
pub open spec fn follower_role(a: AccountRef) -> RoleView {
    RoleView { key: a.key@, is_signer: false, is_writable: a.is_writable }
}

/// The full role list for the given schema.
pub open spec fn role_list(lead: LeadRole, authority: Seq<u8>, accts: Seq<AccountRef>) -> Seq<
    RoleView,
> {
    match lead {
        LeadRole::Authority => seq![lead_role(authority)] + accts.map_values(
            |a: AccountRef| follower_role(a),
        ),
        LeadRole::Owner => if accts.len() == 0 {
            Seq::empty()
        } else {
            seq![lead_role(accts[0].key@)] + accts.drop_first().map_values(
                |a: AccountRef| follower_role(a),
            )
        },
    }
}

/// Maps the supplied accounts to the engine's roles, positionally.
pub fn map_roles(lead: LeadRole, authority: &Address, accts: &Vec<AccountRef>) -> (r: Vec<
    AccountRole,
>)
    ensures
        roles_view(r@) == role_list(lead, authority@, accts@),
{
    let mut out: Vec<AccountRole> = Vec::new();
    let start: usize;
    match lead {
        LeadRole::Authority => {
            out.push(AccountRole { key: *authority, is_signer: true, is_writable: false });
            start = 0;
        },
        LeadRole::Owner => {
            if accts.len() == 0 {
                assert(roles_view(out@) =~= role_list(lead, authority@, accts@));
                return out;
            }
            out.push(AccountRole { key: accts[0].key, is_signer: true, is_writable: false });
            start = 1;
        },
    }
    let ghost rest = accts@.subrange(start as int, accts@.len() as int);
    let ghost first = if lead == LeadRole::Authority {
        authority@
    } else {
        accts@[0].key@
    };
    let mut i: usize = start;
    while i < accts.len()
        invariant
            start <= i <= accts@.len(),
            rest == accts@.subrange(start as int, accts@.len() as int),
            out@.len() == 1 + (i - start),
            out@[0]@ == lead_role(first),
            forall|j: int| 1 <= j < out@.len() ==> out@[j]@ == follower_role(accts@[start + j - 1]),
        decreases accts@.len() - i,
    {
        let a = accts[i];
        out.push(AccountRole { key: a.key, is_signer: false, is_writable: a.is_writable });
        i = i + 1;
    }
    proof {
        let want = role_list(lead, authority@, accts@);
        if lead == LeadRole::Owner {
            assert(accts@.drop_first() =~= rest);
        } else {
            assert(accts@ =~= rest);
        }
        assert(roles_view(out@) =~= want);
    }
    out
}

/// The prefix of every delegated-authority seed list.
pub open spec fn authority_tag() -> Seq<u8> {
    seq![
        99u8, 112u8, 95u8, 112u8, 111u8, 111u8, 108u8, 95u8, 97u8, 117u8, 116u8, 104u8, 111u8,
        114u8, 105u8, 116u8, 121u8,
    ]
}

/// The seeds of a pool's delegated authority: the tag, the pool's address, the bump.
pub open spec fn authority_seeds_of(pool_id: Seq<u8>, bump: u8) -> Seq<Seq<u8>> {
    seq![authority_tag(), pool_id, seq![bump]]
}

/// What a list of byte strings holds.
pub open spec fn seeds_view(seeds: Seq<Vec<u8>>) -> Seq<Seq<u8>> {
    seeds.map_values(|s: Vec<u8>| s@)
}

/// Builds the seeds of a pool's delegated authority.
pub fn authority_seeds(pool_id: &Address, bump: u8) -> (r: Vec<Vec<u8>>)
    ensures
        seeds_view(r@) == authority_seeds_of(pool_id@, bump),
{
    let tag: Vec<u8> = vec![
        99u8, 112u8, 95u8, 112u8, 111u8, 111u8, 108u8, 95u8, 97u8, 117u8, 116u8, 104u8, 111u8,
        114u8, 105u8, 116u8, 121u8,
    ];
    let mut pool: Vec<u8> = Vec::new();
    let mut i: usize = 0;
    while i < 32
        invariant
            0 <= i <= 32,
            pool_id@.len() == 32,
            pool@ == pool_id@.take(i as int),
        decreases 32 - i,
    {
        pool.push(pool_id.bytes[i]);
        assert(pool_id@.take(i as int + 1) =~= pool_id@.take(i as int).push(pool_id@[i as int]));
        i = i + 1;
    }
    assert(pool_id@.take(32) =~= pool_id@);
    let b: Vec<u8> = vec![bump];
    let mut r: Vec<Vec<u8>> = Vec::new();
    r.push(tag);
    r.push(pool);
    r.push(b);
    assert(tag@ =~= authority_tag());
    assert(b@ =~= seq![bump]);
    assert(seeds_view(r@) =~= authority_seeds_of(pool_id@, bump));
    r
}

/// The program-derived address of `seeds` under `program_id`, when there is one.
pub uninterp spec fn program_address(seeds: Seq<Seq<u8>>, program_id: Seq<u8>) -> Option<Seq<u8>>;

/// Relies on solana_pubkey's `Pubkey::create_program_address`: its result, an
/// address or a refusal, depends on the seeds and the program id alone.
#[verifier::external_body]
fn create_program_address(seeds: &Vec<Vec<u8>>, program_id: &Address) -> (r: Option<Address>)
    ensures
        match r {
            Some(a) => program_address(seeds_view(seeds@), program_id@) == Some(a@),
            None => program_address(seeds_view(seeds@), program_id@) is None,
        },
{
    let s: Vec<&[u8]> = seeds.iter().map(|v| v.as_slice()).collect();
    let p = solana_program::pubkey::Pubkey::new_from_array(program_id.bytes);
    match solana_program::pubkey::Pubkey::create_program_address(&s, &p) {
        Ok(a) => Some(Address { bytes: a.to_bytes() }),
        Err(_) => None,
    }
}

/// The delegated authority of `pool_id` under `program_id`, if its seeds give one.
pub open spec fn authority_of(program_id: Seq<u8>, pool_id: Seq<u8>, bump: u8) -> Option<Seq<u8>> {
    program_address(authority_seeds_of(pool_id, bump), program_id)
}

/// Re-derives a pool's delegated authority from its address and stored bump.
pub fn derive_authority(program_id: &Address, pool_id: &Address, bump: u8) -> (r: Result<
    Address,
    ContinuumError,
>)
    ensures
        match r {
            Ok(a) => authority_of(program_id@, pool_id@, bump) == Some(a@),
            Err(e) => e == ContinuumError::InvalidAuthority && authority_of(
                program_id@,
                pool_id@,
                bump,
            ) is None,
        },
{
    let seeds = authority_seeds(pool_id, bump);
    match create_program_address(&seeds, program_id) {
        Some(a) => Ok(a),
        None => Err(ContinuumError::InvalidAuthority),
    }
}

/// A fully built call of the AMM engine, signed for by a pool's delegated authority.
#[derive(Clone, Debug, PartialEq, Eq)]
pub struct ForwardCall {
    /// The AMM engine's program address.
    pub program_id: Address,
    /// The role list, in the engine's positional order.
    pub accounts: Vec<AccountRole>,
    /// Selector and arguments.
    pub data: Vec<u8>,
    /// The seeds with which the delegated authority signs.
    pub signer_seeds: Vec<Vec<u8>>,
}

/// What a forwarded call holds.
pub struct ForwardCallView {
    pub program_id: Seq<u8>,
    pub accounts: Seq<RoleView>,
    pub data: Seq<u8>,
    pub signer_seeds: Seq<Seq<u8>>,
}

impl View for ForwardCall {
    type V = ForwardCallView;

    open spec fn view(&self) -> ForwardCallView {
        ForwardCallView {
            program_id: self.program_id@,
            accounts: roles_view(self.accounts@),
            data: self.data@,
            signer_seeds: seeds_view(self.signer_seeds@),
        }
    }
}

/// The call of `op` on `pool_id`, signed for by its authority `authority`.
pub open spec fn call_of(
    amm_program: Seq<u8>,
    authority: Seq<u8>,
    pool_id: Seq<u8>,
    bump: u8,
    op: AmmOperation,
    lead: LeadRole,
    accts: Seq<AccountRef>,
) -> ForwardCallView {
    ForwardCallView {
        program_id: amm_program,
        accounts: role_list(lead, authority, accts),
        data: operation_bytes(op),
        signer_seeds: authority_seeds_of(pool_id, bump),
    }
}

/// Assembles the call of `op` on `pool_id`.
pub fn build_call(
    amm_program: &Address,
    authority: &Address,
    pool_id: &Address,
    bump: u8,
    op: &AmmOperation,
    lead: LeadRole,
    accts: &Vec<AccountRef>,
) -> (r: ForwardCall)
    ensures
        r@ == call_of(amm_program@, authority@, pool_id@, bump, *op, lead, accts@),
{
    ForwardCall {
        program_id: *amm_program,
        accounts: map_roles(lead, authority, accts),
        data: encode_operation(op),
        signer_seeds: authority_seeds(pool_id, bump),
    }
}

/// The engine's withdrawal accounts by name, for a withdrawal the owning user
/// signs: the owner is a read-only signer, every other account is writable.
#[derive(Clone, Copy, Debug, PartialEq, Eq)]
pub struct CpSwapWithdrawAccounts {
    pub owner: Address,
    pub pool_state: Address,
    pub lp_mint: Address,
    pub user_token_0: Address,
    pub user_token_1: Address,
    pub user_lp: Address,
    pub token_0_vault: Address,
    pub token_1_vault: Address,
    pub token_program: Address,
    pub token_program_2022: Address,
    pub vault_0_mint: Address,
    pub memo_program: Address,
}

/// An account the owner signs for, read-only.
pub open spec fn signing_ref(key: Address) -> AccountRef {
    AccountRef { key, is_signer: true, is_writable: false }
}

/// A writable account that does not sign.
pub open spec fn writable_ref(key: Address) -> AccountRef {
    AccountRef { key, is_signer: false, is_writable: true }
}

impl CpSwapWithdrawAccounts {
    /// The accounts in the engine's positional order.
    pub open spec fn refs(self) -> Seq<AccountRef> {
        seq![
            signing_ref(self.owner),
            writable_ref(self.pool_state),
            writable_ref(self.lp_mint),
            writable_ref(self.user_token_0),
            writable_ref(self.user_token_1),
            writable_ref(self.user_lp),
            writable_ref(self.token_0_vault),
            writable_ref(self.token_1_vault),
            writable_ref(self.token_program),
            writable_ref(self.token_program_2022),
            writable_ref(self.vault_0_mint),
            writable_ref(self.memo_program),
        ]
    }

    /// Lists the accounts in the engine's positional order.
    pub fn to_account_refs(&self) -> (r: Vec<AccountRef>)
        ensures
            r@ == self.refs(),
    {
        let mut r: Vec<AccountRef> = Vec::new();
        r.push(AccountRef { key: self.owner, is_signer: true, is_writable: false });
        r.push(AccountRef { key: self.pool_state, is_signer: false, is_writable: true });
        r.push(AccountRef { key: self.lp_mint, is_signer: false, is_writable: true });
        r.push(AccountRef { key: self.user_token_0, is_signer: false, is_writable: true });
        r.push(AccountRef { key: self.user_token_1, is_signer: false, is_writable: true });
        r.push(AccountRef { key: self.user_lp, is_signer: false, is_writable: true });
        r.push(AccountRef { key: self.token_0_vault, is_signer: false, is_writable: true });
        r.push(AccountRef { key: self.token_1_vault, is_signer: false, is_writable: true });
        r.push(AccountRef { key: self.token_program, is_signer: false, is_writable: true });
        r.push(AccountRef { key: self.token_program_2022, is_signer: false, is_writable: true });
        r.push(AccountRef { key: self.vault_0_mint, is_signer: false, is_writable: true });
        r.push(AccountRef { key: self.memo_program, is_signer: false, is_writable: true });
        assert(r@ =~= self.refs());
        r
    }
}

} // verus!
