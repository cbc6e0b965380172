//! Two-step transfer of a contract's administrator role: the current
//! administrator names a successor, who then accepts.

use vstd::prelude::*;
use crate::common::{Address, CallContext, Error, follows};

verus! {

/// The administrator of a contract and the successor it has proposed.
pub struct AdminSlots {
    pub admin: Option<Address>,
    pub pending: Option<Address>,
}

impl AdminSlots {
    /// No administrator yet.
    pub fn new() -> (s: AdminSlots)
        ensures
            s.admin is None,
            s.pending is None,
    {
        AdminSlots { admin: None, pending: None }
    }

    /// The check that `caller` is the administrator and authorized the call.
    pub open spec fn admin_check(self, ctx: &CallContext, caller: Address) -> Result<(), Error> {
        if !ctx.authorizes(caller) {
            Err(Error::AuthRequired)
        } else if self.admin is None {
            Err(Error::NotInitialized)
        } else if self.admin != Some(caller) {
            Err(Error::Unauthorized)
        } else {
            Ok(())
        }
    }

    /// Refuses the call unless `caller` authorized it and is the administrator.
    pub fn require_admin(&self, ctx: &CallContext, caller: Address) -> (r: Result<(), Error>)
        ensures
            r == self.admin_check(ctx, caller),
    {
        match ctx.require_auth(caller) {
            Ok(()) => {},
            Err(e) => return Err(e),
        }
        match self.admin {
            None => Err(Error::NotInitialized),
            Some(a) => if a == caller { Ok(()) } else { Err(Error::Unauthorized) },
        }
    }

    /// The outcome of `propose`: the current administrator names a successor.
    pub open spec fn after_propose(self, ctx: &CallContext, current_admin: Address, new_admin: Address) -> Result<AdminSlots, Error> {
        if !ctx.authorizes(current_admin) {
            Err(Error::AuthRequired)
        } else if self.admin is None {
            Err(Error::NotInitialized)
        } else if self.admin != Some(current_admin) {
            Err(Error::Unauthorized)
        } else {
            Ok(AdminSlots { admin: self.admin, pending: Some(new_admin) })
        }
    }

    /// The outcome of `accept`: the named successor takes over the role.
    pub open spec fn after_accept(self, ctx: &CallContext, new_admin: Address) -> Result<AdminSlots, Error> {
        if !ctx.authorizes(new_admin) {
            Err(Error::AuthRequired)
        } else if self.pending is None {
            Err(Error::NoPendingAdmin)
        } else if self.pending != Some(new_admin) {
            Err(Error::Unauthorized)
        } else {
            Ok(AdminSlots { admin: Some(new_admin), pending: None })
        }
    }

    /// The current administrator names `new_admin` as successor.
    pub fn propose(&mut self, ctx: &CallContext, current_admin: Address, new_admin: Address) -> (r: Result<(), Error>)
        ensures
            follows(old(self).after_propose(ctx, current_admin, new_admin), r, *old(self), *final(self)),
    {
        match ctx.require_auth(current_admin) {
            Ok(()) => {},
            Err(e) => return Err(e),
        }
        match self.admin {
            None => Err(Error::NotInitialized),
            Some(a) => {
                if a != current_admin {
                    return Err(Error::Unauthorized);
                }
                self.pending = Some(new_admin);
                Ok(())
            },
        }
    }

    /// The proposed successor takes over the role.
    pub fn accept(&mut self, ctx: &CallContext, new_admin: Address) -> (r: Result<(), Error>)
        ensures
            follows(old(self).after_accept(ctx, new_admin), r, *old(self), *final(self)),
    {
        match ctx.require_auth(new_admin) {
            Ok(()) => {},
            Err(e) => return Err(e),
        }
        match self.pending {
            None => Err(Error::NoPendingAdmin),
            Some(p) => {
                if p != new_admin {
                    return Err(Error::Unauthorized);
                }
                self.admin = Some(new_admin);
                self.pending = None;
                Ok(())
            },
        }
    }
}

/// Handing the role over: once the administrator has named a successor,
/// the successor's acceptance makes it the administrator and clears the
/// proposal, and an acceptance by any other account is refused.
pub proof fn lemma_handover(s: AdminSlots, c1: &CallContext, c2: &CallContext, admin: Address, successor: Address, other: Address)
    requires
        s.admin == Some(admin),
        c1.authorizes(admin),
        c2.authorizes(successor),
        c2.authorizes(other),
        other != successor,
    ensures
        s.after_propose(c1, admin, successor) is Ok,
        ({
            let s1 = s.after_propose(c1, admin, successor).unwrap();
            &&& s1.after_accept(c2, successor) == Ok::<AdminSlots, Error>(AdminSlots { admin: Some(successor), pending: None })
            &&& s1.after_accept(c2, other) == Err::<AdminSlots, Error>(Error::Unauthorized)
        }),
{
}

/// Only the administrator can name a successor.
pub proof fn lemma_propose_needs_admin(s: AdminSlots, c: &CallContext, caller: Address, successor: Address)
    requires
        s.admin != Some(caller),
    ensures
        s.after_propose(c, caller, successor) is Err,
{
}

} // verus!

verus! {

impl AdminSlots {
    /// The slots of a contract that has not been initialized.
    pub open spec fn new_spec() -> AdminSlots {
        AdminSlots { admin: None, pending: None }
    }
}

} // verus!
