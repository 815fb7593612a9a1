//! The wrapped token contract: the owner-gated mint/burn control plane on
//! top of the ledger store, the metadata facet, and the synchronization
//! protocol that hands freshly minted balance on to its recipient through
//! a deferred, independently-failing transfer.
//!
//! Every operation takes the [`CallContext`] the host supplies and either
//! mutates the contract atomically or fails with a [`TokenError`] leaving
//! it untouched. Operations that dispatch a remote call return the
//! [`Action`] for the host to schedule; its outcome is observed only by
//! the later call that performs it.

use vstd::prelude::*;

use crate::errors::TokenError;
use crate::host::{Action, CallContext, ONE_YOCTO, STORAGE_BALANCE_MIN};
use crate::ledger::Ledger;
use crate::metadata::{FungibleTokenMetadata, MetadataView};
use crate::ownable::Ownable;

verus! {

/// The contract: ledger store, metadata record, owner identity.
pub struct WrappedAppchainToken {
    token: Ledger,
    metadata: FungibleTokenMetadata,
    owner_id: u64,
}

impl WrappedAppchainToken {
    /// Well-formedness of the underlying ledger store.
    pub open spec fn wf(self) -> bool {
        self.spec_ledger().wf()
    }

    /// The ledger store.
    pub closed spec fn spec_ledger(self) -> Ledger {
        self.token
    }

    /// The content of the stored metadata record.
    pub closed spec fn spec_metadata(self) -> MetadataView {
        self.metadata@
    }

    /// Whether `account_id` is registered with the ledger store.
    pub open spec fn spec_registered(self, account_id: u64) -> bool {
        self.spec_ledger().spec_registered(account_id)
    }

    /// The balance of `account_id`, zero if unregistered.
    pub open spec fn spec_balance_of(self, account_id: u64) -> u128 {
        self.spec_ledger().spec_balance_of(account_id)
    }

    /// The total supply.
    pub open spec fn spec_total_supply(self) -> u128 {
        self.spec_ledger().spec_total_supply()
    }

    /// Whether `ctx` is a call by the current owner.
    pub open spec fn is_owner_call(self, ctx: CallContext) -> bool {
        ctx.predecessor_id == self.spec_owner()
    }

    /// Whether `ctx` is a call by the contract on itself.
    pub open spec fn is_self_call(ctx: CallContext) -> bool {
        ctx.predecessor_id == ctx.current_account_id
    }

    /// The balance of `account_id`, zero if unregistered.
    pub fn ft_balance_of(&self, account_id: u64) -> (r: u128)
        requires
            self.wf(),
        ensures
            r == self.spec_balance_of(account_id),
    {
        self.token.balance_of(account_id)
    }

    /// The total supply.
    pub fn ft_total_supply(&self) -> (r: u128)
        ensures
            r == self.spec_total_supply(),
    {
        self.token.total_supply()
    }

    /// Whether `account_id` is registered with the ledger store.
    pub fn storage_registered(&self, account_id: u64) -> (r: bool)
        ensures
            r == self.spec_registered(account_id),
    {
        self.token.is_registered(account_id)
    }

    /// Returns a copy of the stored metadata record.
    pub fn ft_metadata(&self) -> (r: FungibleTokenMetadata)
        ensures
            r@ == self.spec_metadata(),
    {
        self.metadata.clone()
    }

    /// Whether a burn call succeeds.
    pub open spec fn burn_ok(self, ctx: CallContext, account_id: u64, amount: u128) -> bool {
        &&& ctx.attached_deposit == ONE_YOCTO
        &&& self.is_owner_call(ctx)
        &&& self.spec_registered(account_id)
        &&& self.spec_balance_of(account_id) >= amount
    }

    /// The error with which a burn call fails, guards in call order.
    pub open spec fn burn_err(self, ctx: CallContext, account_id: u64, amount: u128) -> TokenError {
        if ctx.attached_deposit != ONE_YOCTO {
            TokenError::OneYoctoRequired
        } else if !self.is_owner_call(ctx) {
            TokenError::NotOwner
        } else if !self.spec_registered(account_id) {
            TokenError::NotRegistered
        } else {
            TokenError::InsufficientBalance
        }
    }

    /// What a successful burn does: the account's balance and the total
    /// supply shrink by the amount; everything else is untouched.
    pub open spec fn burn_post(
        pre: Self,
        post: Self,
        ctx: CallContext,
        account_id: u64,
        amount: u128,
    ) -> bool {
        &&& pre.burn_ok(ctx, account_id, amount)
        &&& post.wf()
        &&& forall|b: u64| #[trigger] post.spec_registered(b) == pre.spec_registered(b)
        &&& post.spec_balance_of(account_id) == pre.spec_balance_of(account_id) - amount
        &&& forall|b: u64|
            b != account_id ==> #[trigger] post.spec_balance_of(b) == pre.spec_balance_of(b)
        &&& post.spec_total_supply() == pre.spec_total_supply() - amount
        &&& post.spec_owner() == pre.spec_owner()
        &&& post.spec_metadata() == pre.spec_metadata()
    }

    /// Burns `amount` from `account_id`: an owner-only, synchronous supply
    /// decrease. Exactly one minimal unit of attached value is demanded as
    /// friction against accidental calls. Fails, changing nothing, if the
    /// attachment or caller is wrong, the account is unregistered, or its
    /// balance is smaller than `amount`.
    pub fn burn(&mut self, ctx: &CallContext, account_id: u64, amount: u128) -> (r: Result<
        (),
        TokenError,
    >)
        requires
            old(self).wf(),
        ensures
            final(self).wf(),
            r is Ok <==> old(self).burn_ok(*ctx, account_id, amount),
            r is Ok ==> Self::burn_post(*old(self), *final(self), *ctx, account_id, amount),
            r matches Err(e) ==> *final(self) == *old(self) && e == old(self).burn_err(
                *ctx,
                account_id,
                amount,
            ),
    {
        if ctx.attached_deposit != ONE_YOCTO {
            return Err(TokenError::OneYoctoRequired);
        }
        if !self.assert_owner(ctx) {
            return Err(TokenError::NotOwner);
        }
        self.token.withdraw(account_id, amount)
    }

    /// Whether a transfer call succeeds.
    pub open spec fn ft_transfer_ok(self, ctx: CallContext, receiver_id: u64, amount: u128) -> bool {
        &&& ctx.attached_deposit == ONE_YOCTO
        &&& ctx.predecessor_id != receiver_id
        &&& amount > 0
        &&& self.spec_registered(ctx.predecessor_id)
        &&& self.spec_balance_of(ctx.predecessor_id) >= amount
        &&& self.spec_registered(receiver_id)
    }

    /// The error with which a transfer call fails, guards in call order.
    pub open spec fn ft_transfer_err(
        self,
        ctx: CallContext,
        receiver_id: u64,
        amount: u128,
    ) -> TokenError {
        if ctx.attached_deposit != ONE_YOCTO {
            TokenError::OneYoctoRequired
        } else {
            self.spec_ledger().transfer_err(ctx.predecessor_id, receiver_id, amount)
        }
    }

    /// What a successful transfer does: the amount moves from the caller
    /// to the receiver; supply, ownership and metadata are untouched.
    pub open spec fn ft_transfer_post(
        pre: Self,
        post: Self,
        ctx: CallContext,
        receiver_id: u64,
        amount: u128,
    ) -> bool {
        &&& pre.ft_transfer_ok(ctx, receiver_id, amount)
        &&& post.wf()
        &&& forall|b: u64| #[trigger] post.spec_registered(b) == pre.spec_registered(b)
        &&& post.spec_balance_of(ctx.predecessor_id) == pre.spec_balance_of(ctx.predecessor_id)
            - amount
        &&& post.spec_balance_of(receiver_id) == pre.spec_balance_of(receiver_id) + amount
        &&& forall|b: u64|
            b != ctx.predecessor_id && b != receiver_id ==> #[trigger] post.spec_balance_of(b)
                == pre.spec_balance_of(b)
        &&& post.spec_total_supply() == pre.spec_total_supply()
        &&& post.spec_owner() == pre.spec_owner()
        &&& post.spec_metadata() == pre.spec_metadata()
    }

    /// The standard transfer: moves `amount` from the immediate caller to
    /// `receiver_id`, demanding one minimal unit of attached value. The
    /// deferred second step of a mint is exactly such a call, made by the
    /// contract on itself. Fails, changing nothing, if the attachment is
    /// wrong, caller and receiver coincide, the amount is zero, either
    /// account is unregistered, or the caller's balance is too small. The
    /// memo is descriptive only and has no effect on the ledger.
    pub fn ft_transfer(
        &mut self,
        ctx: &CallContext,
        receiver_id: u64,
        amount: u128,
        _memo: Option<String>,
    ) -> (r: Result<(), TokenError>)
        requires
            old(self).wf(),
        ensures
            final(self).wf(),
            r is Ok <==> old(self).ft_transfer_ok(*ctx, receiver_id, amount),
            r is Ok ==> Self::ft_transfer_post(*old(self), *final(self), *ctx, receiver_id, amount),
            r matches Err(e) ==> *final(self) == *old(self) && e == old(self).ft_transfer_err(
                *ctx,
                receiver_id,
                amount,
            ),
    {
        if ctx.attached_deposit != ONE_YOCTO {
            return Err(TokenError::OneYoctoRequired);
        }
        self.token.transfer(ctx.predecessor_id, receiver_id, amount)
    }

    /// Whether a storage registration succeeds.
    pub open spec fn storage_deposit_ok(self, ctx: CallContext, account_id: u64) -> bool {
        self.spec_registered(account_id) || ctx.attached_deposit >= STORAGE_BALANCE_MIN
    }

    /// The storage registration primitive: registers `account_id` with a
    /// zero balance if it is not yet registered, demanding attached value
    /// covering the registration cost; for an account already registered
    /// the call is a refunded no-op. Returns whether the account was
    /// newly registered. Fails, changing nothing, if the account is
    /// unregistered and the attached value is short.
    pub fn storage_deposit(&mut self, ctx: &CallContext, account_id: u64) -> (r: Result<
        bool,
        TokenError,
    >)
        requires
            old(self).wf(),
        ensures
            final(self).wf(),
            r is Ok <==> old(self).storage_deposit_ok(*ctx, account_id),
            r matches Err(e) ==> *final(self) == *old(self) && e
                == TokenError::InsufficientAttachedDeposit,
            r matches Ok(newly) ==> {
                &&& newly == !old(self).spec_registered(account_id)
                &&& forall|b: u64|
                    #[trigger] final(self).spec_registered(b) == (old(self).spec_registered(b)
                        || b == account_id)
                &&& forall|b: u64|
                    #[trigger] final(self).spec_balance_of(b) == old(self).spec_balance_of(b)
                &&& final(self).spec_total_supply() == old(self).spec_total_supply()
                &&& final(self).spec_owner() == old(self).spec_owner()
                &&& final(self).spec_metadata() == old(self).spec_metadata()
            },
    {
        let already = self.token.is_registered(account_id);
        if already {
            return Ok(false);
        }
        if ctx.attached_deposit < STORAGE_BALANCE_MIN {
            return Err(TokenError::InsufficientAttachedDeposit);
        }
        let ghost pre = *self;
        let _ = self.token.register(account_id);
        proof {
            pre.token.lemma_balance_unregistered(account_id);
            assert forall|b: u64| #[trigger] self.spec_balance_of(b) == pre.spec_balance_of(
                b,
            ) by {
                if b != account_id {
                    assert(self.spec_balance_of(b) == pre.spec_balance_of(b));
                }
            }
        }
        Ok(true)
    }

    /// Whether a mint call succeeds.
    pub open spec fn mint_ok(self, ctx: CallContext, account_id: u64, amount: u128) -> bool {
        &&& self.is_owner_call(ctx)
        &&& (self.spec_registered(account_id) || ctx.attached_deposit >= STORAGE_BALANCE_MIN)
        &&& (self.spec_registered(ctx.current_account_id) || ctx.current_account_id == account_id)
        &&& self.spec_balance_of(ctx.current_account_id) + amount <= u128::MAX
        &&& self.spec_total_supply() + amount <= u128::MAX
    }

    /// The error with which a mint call fails, guards in call order.
    pub open spec fn mint_err(self, ctx: CallContext, account_id: u64, amount: u128) -> TokenError {
        if !self.is_owner_call(ctx) {
            TokenError::NotOwner
        } else if !self.spec_registered(account_id) && ctx.attached_deposit < STORAGE_BALANCE_MIN {
            TokenError::InsufficientAttachedDeposit
        } else if !self.spec_registered(ctx.current_account_id) && ctx.current_account_id
            != account_id {
            TokenError::NotRegistered
        } else if self.spec_balance_of(ctx.current_account_id) + amount > u128::MAX {
            TokenError::BalanceOverflow
        } else {
            TokenError::TotalSupplyOverflow
        }
    }

    /// What a successful mint does locally: the recipient is registered,
    /// the minted amount is credited to the contract's own account (not
    /// yet the recipient), and the total supply grows by the amount. The
    /// move to the recipient is the deferred transfer action.
    pub open spec fn mint_post(
        pre: Self,
        post: Self,
        ctx: CallContext,
        account_id: u64,
        amount: u128,
    ) -> bool {
        &&& pre.mint_ok(ctx, account_id, amount)
        &&& post.wf()
        &&& forall|b: u64|
            #[trigger] post.spec_registered(b) == (pre.spec_registered(b) || b == account_id)
        &&& post.spec_balance_of(ctx.current_account_id) == pre.spec_balance_of(
            ctx.current_account_id,
        ) + amount
        &&& forall|b: u64|
            b != ctx.current_account_id ==> #[trigger] post.spec_balance_of(b)
                == pre.spec_balance_of(b)
        &&& post.spec_total_supply() == pre.spec_total_supply() + amount
        &&& post.spec_owner() == pre.spec_owner()
        &&& post.spec_metadata() == pre.spec_metadata()
    }

    /// The first, local step of the mint sequence: deposits `amount` into
    /// the contract's own account, then hands back the deferred transfer
    /// that is to move it on to `account_id`.
    fn internal_mint(&mut self, ctx: &CallContext, account_id: u64, amount: u128) -> (a: Action)
        requires
            old(self).wf(),
            old(self).spec_registered(ctx.current_account_id),
            old(self).spec_balance_of(ctx.current_account_id) + amount <= u128::MAX,
            old(self).spec_total_supply() + amount <= u128::MAX,
        ensures
            final(self).wf(),
            forall|b: u64|
                #[trigger] final(self).spec_registered(b) == old(self).spec_registered(b),
            final(self).spec_balance_of(ctx.current_account_id) == old(self).spec_balance_of(
                ctx.current_account_id,
            ) + amount,
            forall|b: u64|
                b != ctx.current_account_id ==> #[trigger] final(self).spec_balance_of(b) == old(
                    self,
                ).spec_balance_of(b),
            final(self).spec_total_supply() == old(self).spec_total_supply() + amount,
            final(self).spec_owner() == old(self).spec_owner(),
            final(self).spec_metadata() == old(self).spec_metadata(),
            a == (Action::FtTransfer { receiver_id: account_id, amount }),
    {
        let _ = self.token.deposit(ctx.current_account_id, amount);
        Action::FtTransfer { receiver_id: account_id, amount }
    }

    /// Mints `amount` for `account_id`: owner-only. The attached value
    /// must cover the recipient's storage registration if it is not yet
    /// registered. Locally the call registers the recipient and credits
    /// the contract's own account; the returned action is the deferred
    /// transfer that moves the amount on to the recipient, succeeding or
    /// failing on its own later. Fails atomically, changing nothing, on a
    /// wrong caller, insufficient attached value, or overflow.
    pub fn mint(&mut self, ctx: &CallContext, account_id: u64, amount: u128) -> (r: Result<
        Action,
        TokenError,
    >)
        requires
            old(self).wf(),
        ensures
            final(self).wf(),
            r is Ok <==> old(self).mint_ok(*ctx, account_id, amount),
            r matches Ok(a) ==> Self::mint_post(*old(self), *final(self), *ctx, account_id, amount)
                && a == (Action::FtTransfer { receiver_id: account_id, amount }),
            r matches Err(e) ==> *final(self) == *old(self) && e == old(self).mint_err(
                *ctx,
                account_id,
                amount,
            ),
    {
        if !self.assert_owner(ctx) {
            return Err(TokenError::NotOwner);
        }
        let already = self.token.is_registered(account_id);
        if !already && ctx.attached_deposit < STORAGE_BALANCE_MIN {
            return Err(TokenError::InsufficientAttachedDeposit);
        }
        if !self.token.is_registered(ctx.current_account_id) && ctx.current_account_id
            != account_id {
            return Err(TokenError::NotRegistered);
        }
        let base = self.token.balance_of(ctx.current_account_id);
        if amount > u128::MAX - base {
            return Err(TokenError::BalanceOverflow);
        }
        let supply = self.token.total_supply();
        if amount > u128::MAX - supply {
            return Err(TokenError::TotalSupplyOverflow);
        }
        let ghost pre = *self;
        let _ = self.storage_deposit(ctx, account_id);
        let ghost mid = *self;
        proof {
            assert(mid.spec_registered(ctx.current_account_id));
        }
        let action = self.internal_mint(ctx, account_id, amount);
        proof {
            assert forall|b: u64| #[trigger] self.spec_registered(b) == (pre.spec_registered(b)
                || b == account_id) by {
                assert(self.spec_registered(b) == mid.spec_registered(b));
            }
            assert forall|b: u64| b != ctx.current_account_id implies
                #[trigger] self.spec_balance_of(b) == pre.spec_balance_of(b) by {
                assert(self.spec_balance_of(b) == mid.spec_balance_of(b));
                assert(mid.spec_balance_of(b) == pre.spec_balance_of(b));
            }
        }
        Ok(action)
    }

    /// Whether a construction succeeds.
    pub open spec fn new_ok(
        ctx: CallContext,
        state_exists: bool,
        premined_beneficiary: u64,
        metadata: FungibleTokenMetadata,
    ) -> bool {
        &&& !state_exists
        &&& metadata.spec_valid()
        &&& premined_beneficiary != ctx.current_account_id
    }

    /// The error with which a construction fails, guards in call order.
    pub open spec fn new_err(
        ctx: CallContext,
        state_exists: bool,
        premined_beneficiary: u64,
        metadata: FungibleTokenMetadata,
    ) -> TokenError {
        if state_exists {
            TokenError::AlreadyInitialized
        } else if !metadata.spec_valid() {
            TokenError::InvalidMetadata
        } else {
            TokenError::AlreadyRegistered
        }
    }

    /// What a successful construction yields: a contract whose only
    /// registered accounts are its own and the premined beneficiary, with
    /// the whole premined balance parked on the contract's own account,
    /// plus the deferred transfer moving it to the beneficiary and the
    /// one-way base-data notification to the anchor (the owner).
    pub open spec fn new_post(
        post: Self,
        actions: (Action, Action),
        ctx: CallContext,
        owner_id: u64,
        premined_beneficiary: u64,
        premined_balance: u128,
        metadata: FungibleTokenMetadata,
    ) -> bool {
        &&& post.wf()
        &&& post.spec_owner() == owner_id
        &&& post.spec_metadata() == metadata@
        &&& forall|b: u64|
            #[trigger] post.spec_registered(b) == (b == ctx.current_account_id || b
                == premined_beneficiary)
        &&& post.spec_balance_of(ctx.current_account_id) == premined_balance
        &&& forall|b: u64|
            b != ctx.current_account_id ==> #[trigger] post.spec_balance_of(b) == 0
        &&& post.spec_total_supply() == premined_balance
        &&& actions.0 == (Action::FtTransfer {
            receiver_id: premined_beneficiary,
            amount: premined_balance,
        })
        &&& (actions.1 matches Action::SyncBasedata {
            receiver_id,
            metadata: m,
            premined_beneficiary: pb,
            premined_balance: pv,
        } && receiver_id == owner_id && m@ == metadata@ && pb == premined_beneficiary && pv
            == premined_balance)
    }

    /// The one-time constructor. `state_exists` is the host's flag saying
    /// whether contract state was already created; if so the call fails
    /// before anything else. The metadata must pass its validity check,
    /// and the premined beneficiary must differ from the contract's own
    /// account, which is registered first. On success the premined
    /// balance is minted through the usual two-step sequence, and the
    /// base-data notification to the anchor is dispatched fire-and-forget:
    /// construction succeeds whether or not the anchor ever accepts it.
    pub fn new(
        ctx: &CallContext,
        state_exists: bool,
        owner_id: u64,
        premined_beneficiary: u64,
        premined_balance: u128,
        metadata: FungibleTokenMetadata,
    ) -> (r: Result<(Self, (Action, Action)), TokenError>)
        ensures
            r is Ok <==> Self::new_ok(*ctx, state_exists, premined_beneficiary, metadata),
            r matches Ok(p) ==> Self::new_post(
                p.0,
                p.1,
                *ctx,
                owner_id,
                premined_beneficiary,
                premined_balance,
                metadata,
            ),
            r matches Err(e) ==> e == Self::new_err(
                *ctx,
                state_exists,
                premined_beneficiary,
                metadata,
            ),
    {
        if state_exists {
            return Err(TokenError::AlreadyInitialized);
        }
        if !metadata.is_valid() {
            return Err(TokenError::InvalidMetadata);
        }
        if premined_beneficiary == ctx.current_account_id {
            return Err(TokenError::AlreadyRegistered);
        }
        let metadata_for_sync = metadata.clone();
        let mut token = Ledger::new();
        let _ = token.register(ctx.current_account_id);
        let _ = token.register(premined_beneficiary);
        let mut this = WrappedAppchainToken { token, metadata, owner_id };
        let ghost before_mint = this;
        let transfer_action = this.internal_mint(ctx, premined_beneficiary, premined_balance);
        proof {
            assert forall|b: u64| b != ctx.current_account_id implies
                #[trigger] this.spec_balance_of(b) == 0 by {
                assert(this.spec_balance_of(b) == before_mint.spec_balance_of(b));
                if b != premined_beneficiary {
                    assert(!before_mint.spec_registered(b));
                    before_mint.token.lemma_balance_unregistered(b);
                }
            }
        }
        let sync_action = Action::SyncBasedata {
            receiver_id: owner_id,
            metadata: metadata_for_sync,
            premined_beneficiary,
            premined_balance,
        };
        Ok((this, (transfer_action, sync_action)))
    }

    /// Replaces the icon. Only the contract itself, through a dispatched
    /// call on its own account, may do so; every other caller fails with
    /// no change. On success only the icon field changes.
    pub fn set_icon(&mut self, ctx: &CallContext, icon: String) -> (r: Result<(), TokenError>)
        requires
            old(self).wf(),
        ensures
            final(self).wf(),
            r is Ok <==> Self::is_self_call(*ctx),
            r matches Err(e) ==> e == TokenError::NotSelf && *final(self) == *old(self),
            r is Ok ==> {
                &&& final(self).spec_metadata() == (MetadataView {
                    icon: Some(icon@),
                    ..old(self).spec_metadata()
                })
                &&& final(self).spec_ledger() == old(self).spec_ledger()
                &&& final(self).spec_owner() == old(self).spec_owner()
            },
    {
        if ctx.predecessor_id != ctx.current_account_id {
            return Err(TokenError::NotSelf);
        }
        self.metadata.icon = Some(icon);
        Ok(())
    }
}

/// The process-wide application state: nothing before the one-time
/// construction, then the contract instance, held for the rest of the
/// process lifetime and mutated only through the contract's operations.
pub struct AppState {
    contract: Option<WrappedAppchainToken>,
}

impl AppState {
    /// Whether the contract has been constructed.
    pub closed spec fn spec_constructed(self) -> bool {
        self.contract is Some
    }

    /// The constructed contract.
    pub closed spec fn spec_contract(self) -> WrappedAppchainToken {
        self.contract.unwrap()
    }

    /// Well-formedness: once constructed, the contract is well-formed.
    pub open spec fn wf(self) -> bool {
        self.spec_constructed() ==> self.spec_contract().wf()
    }

    /// The state before construction.
    pub fn new() -> (s: AppState)
        ensures
            !s.spec_constructed(),
    {
        AppState { contract: None }
    }

    /// The one-time construction. A second construction attempt always
    /// fails with no mutation at all: metadata, owner and balances keep
    /// their first-construction values.
    pub fn construct(
        &mut self,
        ctx: &CallContext,
        owner_id: u64,
        premined_beneficiary: u64,
        premined_balance: u128,
        metadata: FungibleTokenMetadata,
    ) -> (r: Result<(Action, Action), TokenError>)
        ensures
            old(self).wf() ==> final(self).wf(),
            r is Ok <==> WrappedAppchainToken::new_ok(
                *ctx,
                old(self).spec_constructed(),
                premined_beneficiary,
                metadata,
            ),
            r matches Err(e) ==> *final(self) == *old(self) && e == WrappedAppchainToken::new_err(
                *ctx,
                old(self).spec_constructed(),
                premined_beneficiary,
                metadata,
            ),
            r matches Ok(acts) ==> final(self).spec_constructed()
                && WrappedAppchainToken::new_post(
                final(self).spec_contract(),
                acts,
                *ctx,
                owner_id,
                premined_beneficiary,
                premined_balance,
                metadata,
            ),
    {
        let state_exists = self.contract.is_some();
        match WrappedAppchainToken::new(
            ctx,
            state_exists,
            owner_id,
            premined_beneficiary,
            premined_balance,
            metadata,
        ) {
            Ok((this, actions)) => {
                self.contract = Some(this);
                Ok(actions)
            },
            Err(e) => Err(e),
        }
    }

    /// Whether the one-time construction has happened.
    pub fn is_constructed(&self) -> (r: bool)
        ensures
            r == self.spec_constructed(),
    {
        self.contract.is_some()
    }

    /// A read-only view of the constructed contract.
    pub fn contract(&self) -> (r: &WrappedAppchainToken)
        requires
            self.spec_constructed(),
        ensures
            *r == self.spec_contract(),
    {
        match &self.contract {
            Some(c) => c,
            None => vstd::pervasive::unreached(),
        }
    }

    /// A mutable borrow of the constructed contract, through which every
    /// post-construction operation runs.
    pub fn contract_mut(&mut self) -> (r: &mut WrappedAppchainToken)
        requires
            old(self).spec_constructed(),
        ensures
            *r == old(self).spec_contract(),
            final(self).spec_constructed(),
            final(self).spec_contract() == *final(r),
    {
        match &mut self.contract {
            Some(c) => c,
            None => vstd::pervasive::unreached(),
        }
    }
}

impl Ownable for WrappedAppchainToken {
    /// The stored owner identity.
    closed spec fn spec_owner(self) -> u64 {
        self.owner_id
    }

    /// Agreement on everything but the owner: same ledger store, same
    /// metadata content.
    open spec fn eq_except_owner(self, other: Self) -> bool {
        &&& self.spec_ledger() == other.spec_ledger()
        &&& self.spec_metadata() == other.spec_metadata()
    }

    fn get_owner(&self) -> (r: u64) {
        self.owner_id
    }

    fn set_owner(&mut self, ctx: &CallContext, owner_id: u64) -> (r: Result<(), TokenError>) {
        if !self.assert_owner(ctx) {
            return Err(TokenError::NotOwner);
        }
        self.owner_id = owner_id;
        Ok(())
    }
}

} // verus!
