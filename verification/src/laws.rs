//! Cross-call laws of the mint sequence, proved from the operations'
//! contracts alone.
//!
//! A mint spans two independently-failing calls: the local credit to the
//! contract's own account, and the deferred transfer that moves the
//! credit on to the recipient. The laws here state what holds of the
//! ledger once both have succeeded, and that a mint whose attached value
//! cannot cover the recipient's registration never gets as far as the
//! first step.

use vstd::prelude::*;

use crate::host::{CallContext, STORAGE_BALANCE_MIN};
use crate::ownable::Ownable;
use crate::token::WrappedAppchainToken;

verus! {

/// After a successful mint whose deferred transfer also succeeded, the
/// recipient's balance and the total supply have each grown by the minted
/// amount, and the contract's own balance is back where it started: the
/// minted amount only passed through it. Ownership and metadata are
/// untouched.
///
/// `s0` is the state before the mint, `s1` the state the mint leaves
/// behind, `s2` the state after the deferred transfer ran; `ctx` is the
/// mint call's context and `dctx` the deferred call's, a call by the
/// contract on itself.
pub proof fn lemma_mint_then_deferred_transfer(
    s0: WrappedAppchainToken,
    s1: WrappedAppchainToken,
    s2: WrappedAppchainToken,
    ctx: CallContext,
    dctx: CallContext,
    account_id: u64,
    amount: u128,
)
    requires
        WrappedAppchainToken::mint_post(s0, s1, ctx, account_id, amount),
        dctx.predecessor_id == ctx.current_account_id,
        dctx.current_account_id == ctx.current_account_id,
        WrappedAppchainToken::ft_transfer_post(s1, s2, dctx, account_id, amount),
    ensures
        s2.spec_balance_of(account_id) == s0.spec_balance_of(account_id) + amount,
        s2.spec_total_supply() == s0.spec_total_supply() + amount,
        s2.spec_balance_of(ctx.current_account_id) == s0.spec_balance_of(ctx.current_account_id),
        forall|b: u64|
            b != account_id && b != ctx.current_account_id ==> #[trigger] s2.spec_balance_of(b)
                == s0.spec_balance_of(b),
        s2.spec_owner() == s0.spec_owner(),
        s2.spec_metadata() == s0.spec_metadata(),
{
    assert(account_id != ctx.current_account_id);
    assert(s1.spec_balance_of(account_id) == s0.spec_balance_of(account_id));
    assert(s1.spec_balance_of(ctx.current_account_id) == s0.spec_balance_of(
        ctx.current_account_id,
    ) + amount);
    assert(s2.spec_balance_of(account_id) == s1.spec_balance_of(account_id) + amount);
    assert(s2.spec_balance_of(ctx.current_account_id) == s1.spec_balance_of(
        ctx.current_account_id,
    ) - amount);
}

/// The ledger invariant as a caller sees it: the balances add up to the
/// total supply, so no account — the contract's own included — ever holds
/// more than the total supply.
pub proof fn lemma_balance_bounded_by_supply(c: WrappedAppchainToken, account_id: u64)
    requires
        c.wf(),
    ensures
        c.spec_balance_of(account_id) <= c.spec_total_supply(),
{
    c.spec_ledger().lemma_balance_le_supply(account_id);
}

/// A mint for a recipient that is not yet registered, with attached value
/// below the registration cost, cannot succeed; by the mint contract such
/// a call returns the insufficient-attachment error and leaves every
/// balance and the supply unchanged.
pub proof fn lemma_mint_insufficient_attachment_fails(
    s0: WrappedAppchainToken,
    ctx: CallContext,
    account_id: u64,
    amount: u128,
)
    requires
        !s0.spec_registered(account_id),
        ctx.attached_deposit < STORAGE_BALANCE_MIN,
    ensures
        !s0.mint_ok(ctx, account_id, amount),
{
}

} // verus!
