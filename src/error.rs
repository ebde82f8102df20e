use vstd::prelude::*;

verus! {

/// Why an initialization or a swap was refused.
#[derive(Clone, Copy, Debug, PartialEq, Eq, Structural)]
pub enum SwapError {
    /// The pool record is already initialized.
    AlreadyInUse,
    /// The claimed authority is not the one derived for the pool.
    InvalidProgramAddress,
    /// The quote reserve account is not owned by the derived authority.
    InvalidOwner,
    /// The quote reserve account has a delegate.
    InvalidDelegate,
    /// The quote reserve account has a close authority other than its owner.
    InvalidCloseAuthority,
    /// The supplied native deposit account is not the pool's.
    InvalidNativeAccount,
    /// The supplied quote reserve account is not the pool's.
    InvalidTokenAccount,
    /// The native deposit and quote reserve accounts are the same account.
    InvalidInput,
    /// The supplied transfer service is not the one recorded for the pool.
    IncorrectTokenProgramId,
    /// The pool record is not owned by the executing program.
    IncorrectProgramId,
    /// The payout `amount_in * rate` does not fit in 64 bits.
    AmountOverflow,
}

} // verus!
