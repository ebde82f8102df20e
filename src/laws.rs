use vstd::prelude::*;

use crate::authority::created_address;
use crate::error::SwapError;
use crate::pool::{init_after, init_outcome, swap_outcome, InitPoolSwap, PoolInfo, Swap, SwapTransfers};

verus! {

/// A pool is initialized at most once: once an initialization has succeeded,
/// every later one on the same pool slot fails with `AlreadyInUse`, whatever
/// accounts and rate it is given, and leaves the record as the first one
/// wrote it.
pub proof fn lemma_init_exactly_once(
    first: InitPoolSwap,
    found: Option<(Seq<u8>, u8)>,
    price: u64,
    second: InitPoolSwap,
    found2: Option<(Seq<u8>, u8)>,
    price2: u64,
)
    requires
        init_outcome(first, found, price) is Ok,
        second.pool_info == init_after(first, found, price).pool_info,
    ensures
        init_outcome(first, found, price) matches Ok(p) && second.pool_info.info == p,
        init_outcome(second, found2, price2) == Err::<PoolInfo, SwapError>(SwapError::AlreadyInUse),
        init_after(second, found2, price2) == second,
{
}

/// The authority of a pool is what its key and stored bump re-derive to
/// under the executing program (which initialization establishes for the
/// authority it checked): a swap that claims that authority passes the
/// authority check, and one that claims any other address fails with
/// `InvalidProgramAddress`, as does a swap whose bump derives nothing.
pub proof fn lemma_authority_determinism(program: Seq<u8>, ctx: Swap, amount_in: u64)
    requires
        ctx.pool_info.owner@ == program,
    ensures
        ({
            let created = created_address(ctx.pool_info.key@, ctx.pool_info.info.bump_seed, program);
            let outcome = swap_outcome(program, ctx, created, amount_in);
            let refused = Err::<SwapTransfers, SwapError>(SwapError::InvalidProgramAddress);
            &&& created == Some(ctx.swap_authority@) ==> outcome != refused
            &&& created != Some(ctx.swap_authority@) ==> outcome == refused
        }),
{
}

/// Initialization of a fresh pool that names the derived authority fails with
/// `InvalidOwner` when the quote reserve is owned by anyone else, then with
/// `InvalidDelegate` when the reserve has a delegate, then with
/// `InvalidCloseAuthority` when it has a close authority.
pub proof fn lemma_reserve_checks(ctx: InitPoolSwap, bump: u8, price: u64)
    requires
        !ctx.pool_info.info.is_initialized,
    ensures
        ({
            let found = Some((ctx.swap_authority@, bump));
            let reserve = ctx.quote_token_account;
            &&& reserve.owner@ != ctx.swap_authority@
                ==> init_outcome(ctx, found, price) == Err::<PoolInfo, SwapError>(SwapError::InvalidOwner)
            &&& reserve.owner@ == ctx.swap_authority@ && reserve.delegate is Some
                ==> init_outcome(ctx, found, price) == Err::<PoolInfo, SwapError>(SwapError::InvalidDelegate)
            &&& reserve.owner@ == ctx.swap_authority@ && reserve.delegate is None && reserve.close_authority is Some
                ==> init_outcome(ctx, found, price) == Err::<PoolInfo, SwapError>(SwapError::InvalidCloseAuthority)
            &&& init_outcome(ctx, found, price) is Ok <==> (reserve.owner@ == ctx.swap_authority@
                && reserve.delegate is None && reserve.close_authority is None)
        }),
{
}

/// A swap whose native deposit account and quote reserve account are the same
/// account never settles; once the earlier checks pass it fails with
/// `InvalidInput`.
pub proof fn lemma_distinct_accounts(program: Seq<u8>, ctx: Swap, created: Option<Seq<u8>>, amount_in: u64)
    requires
        ctx.pool_native_account@ == ctx.pool_quote_account.key@,
    ensures
        swap_outcome(program, ctx, created, amount_in) is Err,
        ctx.pool_info.owner@ == program && created == Some(ctx.swap_authority@)
            && ctx.pool_native_account@ == ctx.pool_info.info.native_account_info@
            && ctx.pool_quote_account.key@ == ctx.pool_info.info.quote_token_account@
            ==> swap_outcome(program, ctx, created, amount_in)
            == Err::<SwapTransfers, SwapError>(SwapError::InvalidInput),
{
}

/// A settled swap pays out exactly `amount_in * price` and takes exactly
/// `amount_in`. On accounts that pass every check (as a swap of nothing
/// shows), a swap settles exactly when that product fits in 64 bits, and
/// otherwise fails with `AmountOverflow` instead of wrapping.
pub proof fn lemma_rate_arithmetic(program: Seq<u8>, ctx: Swap, created: Option<Seq<u8>>, amount_in: u64)
    ensures
        swap_outcome(program, ctx, created, amount_in) matches Ok(t) ==> {
            &&& t.quote.amount == amount_in * ctx.pool_info.info.price
            &&& t.native.amount == amount_in
        },
        swap_outcome(program, ctx, created, 0) is Ok ==> {
            &&& swap_outcome(program, ctx, created, amount_in) is Ok
                <==> amount_in * ctx.pool_info.info.price <= u64::MAX
            &&& amount_in * ctx.pool_info.info.price > u64::MAX
                ==> swap_outcome(program, ctx, created, amount_in)
                == Err::<SwapTransfers, SwapError>(SwapError::AmountOverflow)
        },
{
}

} // verus!
