//! The ownership policy: a single owner account gates the privileged
//! calls, and only the current owner may hand ownership on. There is no
//! acceptance step: ownership handed to a mistyped account is lost.

use vstd::prelude::*;

use crate::errors::TokenError;
use crate::host::CallContext;

verus! {

/// A value with a single owner account that only the current owner may
/// replace.
pub trait Ownable: Sized {
    /// The current owner.
    spec fn spec_owner(self) -> u64;

    /// Whether `other` agrees with `self` on everything but the owner.
    spec fn eq_except_owner(self, other: Self) -> bool;

    /// Returns the current owner.
    fn get_owner(&self) -> (r: u64)
        ensures
            r == self.spec_owner(),
    ;

    /// The owner guard: whether the immediate caller is the current
    /// owner. A privileged operation proceeds only when this holds and
    /// otherwise fails with [`TokenError::NotOwner`], aborting the call
    /// with no state change.
    fn assert_owner(&self, ctx: &CallContext) -> (r: bool)
        ensures
            r == (ctx.predecessor_id == self.spec_owner()),
    {
        ctx.predecessor_id == self.get_owner()
    }

    /// Hands ownership to `owner_id`. Fails, changing nothing, unless the
    /// immediate caller is the current owner.
    fn set_owner(&mut self, ctx: &CallContext, owner_id: u64) -> (r: Result<(), TokenError>)
        ensures
            r is Ok <==> ctx.predecessor_id == old(self).spec_owner(),
            r is Ok ==> final(self).spec_owner() == owner_id && old(self).eq_except_owner(
                *final(self),
            ),
            r matches Err(e) ==> e == TokenError::NotOwner && *final(self) == *old(self),
    ;
}

} // verus!
