//! The vocabulary of the registry: para identifiers, lifecycle states, callers,
//! slot kinds, events and errors.

use vstd::prelude::*;

verus! {

/// Identifier of a para. The registry never interprets the number: it only
/// compares identifiers and records them.
#[derive(Clone, Copy, Debug, PartialEq, Eq, Hash, Structural)]
pub struct ParaId(pub u32);

/// Lifecycle state of a para, as reported by the lifecycle tracker of the host.
/// A para that the tracker does not know has no state at all.
#[derive(Clone, Copy, Debug, PartialEq, Eq, Structural)]
pub enum ParaLifeCycle {
    /// New, and onboarding as a parathread or a parachain.
    Onboarding,
    /// A parathread: eligible for a slot, holding none.
    Parathread,
    /// A parachain: already scheduled continuously.
    Parachain,
    /// A parathread on its way to becoming a parachain.
    UpgradingParathread,
    /// A parachain on its way to becoming a parathread.
    DowngradingParachain,
    /// A parathread queued to be offboarded.
    OffboardingParathread,
    /// A parachain queued to be offboarded.
    OffboardingParachain,
}

/// Kind of slot a para is registered for. It selects the list that the para
/// is appended to and the event that is emitted.
#[derive(Clone, Copy, Debug, PartialEq, Eq, Structural)]
pub enum SlotType {
    LongTerm,
    ShortTerm,
}

impl Default for SlotType {
    /// The default kind is `LongTerm`. Registration never relies on it.
    fn default() -> (slot: Self)
        ensures
            slot == SlotType::LongTerm,
    {
        SlotType::LongTerm
    }
}

/// What the registry tells its observers after a successful registration.
#[derive(Clone, Copy, Debug, PartialEq, Eq, Structural)]
pub enum Event {
    /// A para has been registered for long term slots.
    LongTermParaRegistered(ParaId),
    /// A para has been registered for short term slots.
    ShortTermParaRegistered(ParaId),
}

impl Event {
    /// The event that announces the registration of `id` for a slot of kind `slot`.
    pub open spec fn registration(slot: SlotType, id: ParaId) -> Event {
        match slot {
            SlotType::LongTerm => Event::LongTermParaRegistered(id),
            SlotType::ShortTerm => Event::ShortTermParaRegistered(id),
        }
    }
}

/// Why a call was refused. Every refusal leaves the registry as it was.
#[derive(Clone, Copy, Debug, PartialEq, Eq, Structural)]
pub enum Error {
    /// The specified parachain or parathread is not registered.
    ParaDoesntExist,
    /// The specified parachain or parathread is already registered.
    ParaAlreadyExists,
    /// Not a parathread.
    NotParathread,
    /// Not a parachain.
    NotParachain,
    /// Invalid para index: nobody is on record as the manager of the para.
    InvalidParaId,
    /// The origin of this call is invalid.
    InvalidOrigin,
}

/// Who makes a call.
#[derive(Clone, Debug, PartialEq, Eq)]
pub enum Origin<AccountId> {
    /// The privileged authority of the host.
    Root,
    /// An authenticated account.
    Signed(AccountId),
    /// A caller without an authenticated identity.
    Anonymous,
}

impl<AccountId> Origin<AccountId> {
    /// What `ensure_root` answers.
    pub open spec fn root_check(self) -> Result<(), Error> {
        if self is Root {
            Ok(())
        } else {
            Err(Error::InvalidOrigin)
        }
    }

    /// What `ensure_signed` answers.
    pub open spec fn signed_check(self) -> Result<AccountId, Error> {
        match self {
            Origin::Signed(who) => Ok(who),
            _ => Err(Error::InvalidOrigin),
        }
    }

    /// Accepts the privileged authority and nobody else.
    pub fn ensure_root(&self) -> (r: Result<(), Error>)
        ensures
            r == self.root_check(),
    {
        match self {
            Origin::Root => Ok(()),
            _ => Err(Error::InvalidOrigin),
        }
    }

    /// Accepts an authenticated account and hands it out.
    pub fn ensure_signed(self) -> (r: Result<AccountId, Error>)
        ensures
            r == self.signed_check(),
    {
        match self {
            Origin::Signed(who) => Ok(who),
            _ => Err(Error::InvalidOrigin),
        }
    }
}

} // verus!
