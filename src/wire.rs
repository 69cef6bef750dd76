//! The AMM engine's calling convention: an 8-byte operation selector followed
//! by fixed-width little-endian arguments in a fixed order.
use vstd::prelude::*;

verus! {

/// Byte `i` (counted from the least significant) of `x`.
pub open spec fn le_byte(x: u64, i: int) -> u8 {
    ((x >> ((8 * i) as u64)) & 0xff) as u8
}

/// The eight little-endian bytes of `x`.
pub open spec fn le_bytes(x: u64) -> Seq<u8> {
    Seq::new(8, |i: int| le_byte(x, i))
}

/// Selector of the engine's exact-input swap.
pub open spec fn swap_selector() -> Seq<u8> {
    seq![143u8, 190u8, 90u8, 218u8, 196u8, 30u8, 51u8, 222u8]
}

/// Selector of the engine's liquidity deposit.
pub open spec fn deposit_selector() -> Seq<u8> {
    seq![242u8, 35u8, 198u8, 137u8, 82u8, 225u8, 242u8, 182u8]
}

/// Selector of the engine's liquidity withdrawal.
pub open spec fn withdraw_selector() -> Seq<u8> {
    seq![183u8, 18u8, 70u8, 156u8, 148u8, 109u8, 161u8, 34u8]
}

/// One call of the AMM engine, with its arguments in wire order.
#[derive(Clone, Copy, Debug, PartialEq, Eq, Structural)]
pub enum AmmOperation {
    /// Exact amount in, minimum amount out.
    Swap { amount_in: u64, min_amount_out: u64 },
    /// Mint at least `lp_amount` LP tokens, spending at most the two maxima.
    Deposit { lp_amount: u64, max_token_0: u64, max_token_1: u64 },
    /// Burn `lp_amount` LP tokens, receiving at least the two minima.
    Withdraw { lp_amount: u64, min_token_0: u64, min_token_1: u64 },
}

/// The exact bytes the engine expects for `op`.
pub open spec fn operation_bytes(op: AmmOperation) -> Seq<u8> {
    match op {
        AmmOperation::Swap { amount_in, min_amount_out } => swap_selector() + le_bytes(amount_in)
            + le_bytes(min_amount_out),
        AmmOperation::Deposit { lp_amount, max_token_0, max_token_1 } => deposit_selector()
            + le_bytes(lp_amount) + le_bytes(max_token_0) + le_bytes(max_token_1),
        AmmOperation::Withdraw { lp_amount, min_token_0, min_token_1 } => withdraw_selector()
            + le_bytes(lp_amount) + le_bytes(min_token_0) + le_bytes(min_token_1),
    }
}

/// Appends the eight little-endian bytes of `x`.
pub fn push_le_u64(out: &mut Vec<u8>, x: u64)
    ensures
        final(out)@ == old(out)@ + le_bytes(x),
{
    let ghost start = old(out)@;
    let mut i: u64 = 0;
    while i < 8
        invariant
            0 <= i <= 8,
            out@ == start + le_bytes(x).take(i as int),
        decreases 8 - i,
    {
        let b: u8 = ((x >> (8 * i)) & 0xff) as u8;
        assert(b == le_byte(x, i as int));
        out.push(b);
        assert(le_bytes(x).take(i as int + 1) =~= le_bytes(x).take(i as int).push(b));
        i = i + 1;
    }
    assert(le_bytes(x).take(8) =~= le_bytes(x));
}

fn push_selector(out: &mut Vec<u8>, s: [u8; 8])
    ensures
        final(out)@ == old(out)@ + s@,
{
    let ghost start = old(out)@;
    let mut i: usize = 0;
    while i < 8
        invariant
            0 <= i <= 8,
            s@.len() == 8,
            out@ == start + s@.take(i as int),
        decreases 8 - i,
    {
        out.push(s[i]);
        assert(s@.take(i as int + 1) =~= s@.take(i as int).push(s@[i as int]));
        i = i + 1;
    }
    assert(s@.take(8) =~= s@);
}

/// Encodes `op` as the engine's instruction data.
pub fn encode_operation(op: &AmmOperation) -> (r: Vec<u8>)
    ensures
        r@ == operation_bytes(*op),
{
    let mut out: Vec<u8> = Vec::new();
    match *op {
        AmmOperation::Swap { amount_in, min_amount_out } => {
            let s: [u8; 8] = [143, 190, 90, 218, 196, 30, 51, 222];
            push_selector(&mut out, s);
            assert(s@ =~= swap_selector());
            push_le_u64(&mut out, amount_in);
            push_le_u64(&mut out, min_amount_out);
        },
        AmmOperation::Deposit { lp_amount, max_token_0, max_token_1 } => {
            let s: [u8; 8] = [242, 35, 198, 137, 82, 225, 242, 182];
            push_selector(&mut out, s);
            assert(s@ =~= deposit_selector());
            push_le_u64(&mut out, lp_amount);
            push_le_u64(&mut out, max_token_0);
            push_le_u64(&mut out, max_token_1);
        },
        AmmOperation::Withdraw { lp_amount, min_token_0, min_token_1 } => {
            let s: [u8; 8] = [183, 18, 70, 156, 148, 109, 161, 34];
            push_selector(&mut out, s);
            assert(s@ =~= withdraw_selector());
            push_le_u64(&mut out, lp_amount);
            push_le_u64(&mut out, min_token_0);
            push_le_u64(&mut out, min_token_1);
        },
    }
    assert(out@ =~= operation_bytes(*op));
    out
}

} // verus!
