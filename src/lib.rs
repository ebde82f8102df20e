//! A single-pool, fixed-rate custodial swap: pool initialization, derived
//! authority checks and swap settlement, with their contracts.

pub mod address;
pub mod authority;
pub mod error;
pub mod laws;
pub mod pool;

pub use address::Address;
pub use authority::{create_authority_id, find_authority};
pub use error::SwapError;

pub use pool::{
    init_pool_swap, init_pool_with_authority, settle_swap, swap, InitPoolSwap, NativeTransfer,
    PoolAccount, PoolInfo, QuoteTransfer, Swap, SwapTransfers, TokenAccountState,
};
