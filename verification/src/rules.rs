//! The rules that gate a registration: who may ask for it, and which paras
//! are eligible. Each rule is a spec function with an executable check that
//! computes it.

use crate::types::{Error, Origin, ParaLifeCycle};
use vstd::laws_eq::obeys_concrete_eq;
use vstd::prelude::*;

verus! {

/// The rule for short-term slots: the caller must be an authenticated account,
/// the para must have a manager on record, and the two must be the same
/// account. The caller is looked at first, then the record.
pub open spec fn manager_authorization<AccountId>(
    origin: Origin<AccountId>,
    manager: Option<AccountId>,
) -> Result<(), Error> {
    match origin {
        Origin::Signed(who) => match manager {
            None => Err(Error::InvalidParaId),
            Some(m) => if who == m {
                Ok(())
            } else {
                Err(Error::InvalidOrigin)
            },
        },
        _ => Err(Error::InvalidOrigin),
    }
}

/// The rule of eligibility: only a para that is exactly a parathread can be
/// registered. A para in any other state, or unknown to the tracker, cannot.
pub open spec fn eligibility(lifecycle: Option<ParaLifeCycle>) -> Result<(), Error> {
    if lifecycle == Some(ParaLifeCycle::Parathread) {
        Ok(())
    } else {
        Err(Error::NotParathread)
    }
}

/// The outcome of a long-term registration: the caller is judged first, and
/// the para only if the caller is the privileged authority.
pub open spec fn long_term_verdict<AccountId>(
    origin: Origin<AccountId>,
    lifecycle: Option<ParaLifeCycle>,
) -> Result<(), Error> {
    match origin.root_check() {
        Err(e) => Err(e),
        Ok(_) => eligibility(lifecycle),
    }
}

/// The outcome of a short-term registration: the caller is judged first, and
/// the para only if the caller is its manager.
pub open spec fn short_term_verdict<AccountId>(
    origin: Origin<AccountId>,
    manager: Option<AccountId>,
    lifecycle: Option<ParaLifeCycle>,
) -> Result<(), Error> {
    match manager_authorization(origin, manager) {
        Err(e) => Err(e),
        Ok(_) => eligibility(lifecycle),
    }
}

/// Checks that `origin` is the account that `manager` names. `manager` is what
/// the ownership registrar of the host has on record for the para.
pub fn ensure_manager<AccountId: PartialEq>(
    origin: Origin<AccountId>,
    manager: Option<AccountId>,
) -> (r: Result<(), Error>)
    requires
        obeys_concrete_eq::<AccountId>(),
    ensures
        r == manager_authorization(origin, manager),
{
    proof {
        reveal(obeys_concrete_eq);
    }
    let who = match origin.ensure_signed() {
        Ok(who) => who,
        Err(e) => {
            return Err(e);
        },
    };
    match manager {
        None => Err(Error::InvalidParaId),
        Some(m) => if who == m {
            Ok(())
        } else {
            Err(Error::InvalidOrigin)
        },
    }
}

/// Checks that a para in state `lifecycle` is eligible for a slot.
pub fn ensure_parathread(lifecycle: Option<ParaLifeCycle>) -> (r: Result<(), Error>)
    ensures
        r == eligibility(lifecycle),
{
    match lifecycle {
        Some(ParaLifeCycle::Parathread) => Ok(()),
        _ => Err(Error::NotParathread),
    }
}

} // verus!
