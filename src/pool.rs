use vstd::prelude::*;

use crate::address::Address;
use crate::authority::{create_authority_id, created_address, find_authority, found_authority, view_found};
use crate::error::SwapError;

verus! {

/// The persisted record of a swap pool.
#[derive(Clone, Copy, Debug)]
pub struct PoolInfo {
    /// Set once, by initialization.
    pub is_initialized: bool,
    /// Quote units paid out for each native unit deposited.
    pub price: u64,
    /// The account where deposited native value accumulates.
    pub native_account_info: Address,
    /// The asset kind that the pool pays out.
    pub quote_token_mint: Address,
    /// The pool's quote reserve account, owned by the derived authority.
    pub quote_token_account: Address,
    /// The bump that re-derives the pool's authority.
    pub bump_seed: u8,
    /// The transfer service that swaps must go through.
    pub token_program_id: Address,
}

/// A pool record together with the identity of its storage slot and the
/// program that owns that slot.
#[derive(Clone, Copy, Debug)]
pub struct PoolAccount {
    pub key: Address,
    pub owner: Address,
    pub info: PoolInfo,
}

/// What the logic reads of a quote-asset account.
#[derive(Clone, Copy, Debug)]
pub struct TokenAccountState {
    pub key: Address,
    pub mint: Address,
    pub owner: Address,
    pub delegate: Option<Address>,
    pub close_authority: Option<Address>,
}

/// The accounts handed to pool initialization.
#[derive(Clone, Copy, Debug)]
pub struct InitPoolSwap {
    /// The fresh pool slot, signed by its creator.
    pub pool_info: PoolAccount,
    /// The claimed pool authority.
    pub swap_authority: Address,
    /// The quote reserve account.
    pub quote_token_account: TokenAccountState,
    /// The native deposit account.
    pub native_account_info: Address,
    /// The transfer service for the quote asset.
    pub token_program: Address,
}

/// The accounts handed to a swap.
#[derive(Clone, Copy, Debug)]
pub struct Swap {
    pub pool_info: PoolAccount,
    /// The claimed pool authority.
    pub swap_authority: Address,
    /// The user, who signs the native leg.
    pub user_wallet: Address,
    /// Where the user receives the quote asset.
    pub user_quote_account: Address,
    pub pool_native_account: Address,
    pub pool_quote_account: TokenAccountState,
    pub token_program: Address,
    pub system_program: Address,
}

/// Leg A of a swap: native units from the user to the pool, signed by the user.
#[derive(Clone, Copy, Debug)]
pub struct NativeTransfer {
    pub from: Address,
    pub to: Address,
    pub amount: u64,
}

/// Leg B of a swap: quote units from the reserve to the user, authorized by
/// the pool's derived authority through the seed `pool_key` and `bump_seed`.
#[derive(Clone, Copy, Debug)]
pub struct QuoteTransfer {
    pub token_program: Address,
    pub from: Address,
    pub to: Address,
    pub authority: Address,
    pub amount: u64,
    pub pool_key: Address,
    pub bump_seed: u8,
}

/// The two legs that settle one swap; both are applied or neither.
#[derive(Clone, Copy, Debug)]
pub struct SwapTransfers {
    pub native: NativeTransfer,
    pub quote: QuoteTransfer,
}

/// The record that a successful initialization writes.
pub open spec fn initialized_record(ctx: InitPoolSwap, bump: u8, init_price: u64) -> PoolInfo {
    PoolInfo {
        is_initialized: true,
        price: init_price,
        native_account_info: ctx.native_account_info,
        quote_token_mint: ctx.quote_token_account.mint,
        quote_token_account: ctx.quote_token_account.key,
        bump_seed: bump,
        token_program_id: ctx.token_program,
    }
}

/// Initialization given the outcome `found` of the authority search: the
/// first failed check in order, or the record written.
pub open spec fn init_outcome(ctx: InitPoolSwap, found: Option<(Seq<u8>, u8)>, init_price: u64) -> Result<PoolInfo, SwapError> {
    if ctx.pool_info.info.is_initialized {
        Err(SwapError::AlreadyInUse)
    } else {
        match found {
            None => Err(SwapError::InvalidProgramAddress),
            Some((authority, bump)) => {
                if ctx.swap_authority@ != authority {
                    Err(SwapError::InvalidProgramAddress)
                } else if ctx.swap_authority@ != ctx.quote_token_account.owner@ {
                    Err(SwapError::InvalidOwner)
                } else if ctx.quote_token_account.delegate is Some {
                    Err(SwapError::InvalidDelegate)
                } else if ctx.quote_token_account.close_authority is Some {
                    Err(SwapError::InvalidCloseAuthority)
                } else {
                    Ok(initialized_record(ctx, bump, init_price))
                }
            },
        }
    }
}

/// The accounts after initialization: only the pool record changes, and only
/// on success.
pub open spec fn init_after(ctx: InitPoolSwap, found: Option<(Seq<u8>, u8)>, init_price: u64) -> InitPoolSwap {
    match init_outcome(ctx, found, init_price) {
        Ok(p) => InitPoolSwap { pool_info: PoolAccount { info: p, ..ctx.pool_info }, ..ctx },
        Err(_) => ctx,
    }
}

/// The legs of a swap of `amount_in` paying out `amount_out`.
pub open spec fn swap_transfers(ctx: Swap, amount_in: u64, amount_out: u64) -> SwapTransfers {
    SwapTransfers {
        native: NativeTransfer { from: ctx.user_wallet, to: ctx.pool_native_account, amount: amount_in },
        quote: QuoteTransfer {
            token_program: ctx.token_program,
            from: ctx.pool_quote_account.key,
            to: ctx.user_quote_account,
            authority: ctx.swap_authority,
            amount: amount_out,
            pool_key: ctx.pool_info.key,
            bump_seed: ctx.pool_info.info.bump_seed,
        },
    }
}

/// A swap whose pool authority re-derives to `authority`: the first failed
/// check in order, or the two legs.
pub open spec fn settle_outcome(ctx: Swap, authority: Seq<u8>, amount_in: u64) -> Result<SwapTransfers, SwapError> {
    let info = ctx.pool_info.info;
    if authority != ctx.swap_authority@ {
        Err(SwapError::InvalidProgramAddress)
    } else if ctx.pool_native_account@ != info.native_account_info@ {
        Err(SwapError::InvalidNativeAccount)
    } else if ctx.pool_quote_account.key@ != info.quote_token_account@ {
        Err(SwapError::InvalidTokenAccount)
    } else if ctx.pool_native_account@ == ctx.pool_quote_account.key@ {
        Err(SwapError::InvalidInput)
    } else if ctx.token_program@ != info.token_program_id@ {
        Err(SwapError::IncorrectTokenProgramId)
    } else if amount_in * info.price > u64::MAX {
        Err(SwapError::AmountOverflow)
    } else {
        Ok(swap_transfers(ctx, amount_in, (amount_in * info.price) as u64))
    }
}

/// A swap under program `program`, where `created` is the re-derivation of
/// the pool authority from its stored bump.
pub open spec fn swap_outcome(program: Seq<u8>, ctx: Swap, created: Option<Seq<u8>>, amount_in: u64) -> Result<SwapTransfers, SwapError> {
    if ctx.pool_info.owner@ != program {
        Err(SwapError::IncorrectProgramId)
    } else {
        match created {
            None => Err(SwapError::InvalidProgramAddress),
            Some(authority) => settle_outcome(ctx, authority, amount_in),
        }
    }
}

/// Checks and writes a pool record, given the outcome of the authority search
/// for the pool's key.
pub fn init_pool_with_authority(ctx: &mut InitPoolSwap, found: Option<(Address, u8)>, init_price: u64) -> (r: Result<(), SwapError>)
    ensures
        *final(ctx) == init_after(*old(ctx), view_found(found), init_price),
        r is Ok == init_outcome(*old(ctx), view_found(found), init_price) is Ok,
        init_outcome(*old(ctx), view_found(found), init_price) matches Err(e) ==> r == Err::<(), SwapError>(e),
{
    if ctx.pool_info.info.is_initialized {
        return Err(SwapError::AlreadyInUse);
    }
    let (authority, bump) = match found {
        Some(f) => f,
        None => return Err(SwapError::InvalidProgramAddress),
    };
    if !ctx.swap_authority.same(&authority) {
        return Err(SwapError::InvalidProgramAddress);
    }
    if !ctx.swap_authority.same(&ctx.quote_token_account.owner) {
        return Err(SwapError::InvalidOwner);
    }
    if ctx.quote_token_account.delegate.is_some() {
        return Err(SwapError::InvalidDelegate);
    }
    if ctx.quote_token_account.close_authority.is_some() {
        return Err(SwapError::InvalidCloseAuthority);
    }
    ctx.pool_info.info = PoolInfo {
        is_initialized: true,
        price: init_price,
        native_account_info: ctx.native_account_info,
        quote_token_mint: ctx.quote_token_account.mint,
        quote_token_account: ctx.quote_token_account.key,
        bump_seed: bump,
        token_program_id: ctx.token_program,
    };
    Ok(())
}

/// Initializes the pool in `ctx` with rate `init_price`, under program
/// `program_id`.
pub fn init_pool_swap(program_id: &Address, ctx: &mut InitPoolSwap, init_price: u64) -> (r: Result<(), SwapError>)
    ensures
        ({
            let found = found_authority(old(ctx).pool_info.key@, program_id@);
            &&& *final(ctx) == init_after(*old(ctx), found, init_price)
            &&& r is Ok == init_outcome(*old(ctx), found, init_price) is Ok
            &&& init_outcome(*old(ctx), found, init_price) matches Err(e) ==> r == Err::<(), SwapError>(e)
        }),
        r is Ok ==> created_address(old(ctx).pool_info.key@, final(ctx).pool_info.info.bump_seed, program_id@)
            == Some(old(ctx).swap_authority@),
{
    if ctx.pool_info.info.is_initialized {
        return Err(SwapError::AlreadyInUse);
    }
    let found = find_authority(program_id, &ctx.pool_info.key);
    init_pool_with_authority(ctx, found, init_price)
}

/// Checks a swap of `amount_in` against the pool, given the authority
/// re-derived from the pool's stored bump, and computes its two legs.
pub fn settle_swap(ctx: &Swap, authority_id: &Address, amount_in: u64) -> (r: Result<SwapTransfers, SwapError>)
    ensures
        r == settle_outcome(*ctx, authority_id@, amount_in),
{
    let info = &ctx.pool_info.info;
    if !authority_id.same(&ctx.swap_authority) {
        return Err(SwapError::InvalidProgramAddress);
    }
    if !ctx.pool_native_account.same(&info.native_account_info) {
        return Err(SwapError::InvalidNativeAccount);
    }
    if !ctx.pool_quote_account.key.same(&info.quote_token_account) {
        return Err(SwapError::InvalidTokenAccount);
    }
    if ctx.pool_native_account.same(&ctx.pool_quote_account.key) {
        return Err(SwapError::InvalidInput);
    }
    if !ctx.token_program.same(&info.token_program_id) {
        return Err(SwapError::IncorrectTokenProgramId);
    }
    let amount_out = match amount_in.checked_mul(info.price) {
        Some(v) => v,
        None => return Err(SwapError::AmountOverflow),
    };
    Ok(SwapTransfers {
        native: NativeTransfer { from: ctx.user_wallet, to: ctx.pool_native_account, amount: amount_in },
        quote: QuoteTransfer {
            token_program: ctx.token_program,
            from: ctx.pool_quote_account.key,
            to: ctx.user_quote_account,
            authority: ctx.swap_authority,
            amount: amount_out,
            pool_key: ctx.pool_info.key,
            bump_seed: info.bump_seed,
        },
    })
}

/// Checks a swap of `amount_in` under program `program_id` and computes the
/// two legs that settle it.
pub fn swap(program_id: &Address, ctx: &Swap, amount_in: u64) -> (r: Result<SwapTransfers, SwapError>)
    ensures
        r == swap_outcome(
            program_id@,
            *ctx,
            created_address(ctx.pool_info.key@, ctx.pool_info.info.bump_seed, program_id@),
            amount_in,
        ),
{
    if !ctx.pool_info.owner.same(program_id) {
        return Err(SwapError::IncorrectProgramId);
    }
    let authority_id = create_authority_id(program_id, &ctx.pool_info.key, ctx.pool_info.info.bump_seed)?;
    settle_swap(ctx, &authority_id, amount_in)
}

} // verus!
