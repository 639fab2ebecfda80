//! The registry itself: the state that the host keeps, and the two calls that
//! register a para.

use crate::config::Config;
use crate::rules::{
    eligibility, ensure_manager, ensure_parathread, long_term_verdict, manager_authorization,
    short_term_verdict,
};
use crate::store::Store;
use crate::types::{Error, Event, Origin, ParaId, ParaLifeCycle, SlotType};
use vstd::laws_eq::obeys_concrete_eq;
use vstd::prelude::*;

verus! {

/// The slot registry. It owns the slot configuration, the two lists of
/// registered paras and the log of emitted events. Only a registration adds to
/// the lists, and only at their end.
#[derive(Debug, Clone, PartialEq, Eq)]
pub struct Pallet {
    short_term_slots: u32,
    short_term_slot_duration: u32,
    long_term_slot_duration: u32,
    long_term_paras: Vec<ParaId>,
    short_term_paras: Vec<ParaId>,
    events: Vec<Event>,
}

impl View for Pallet {
    type V = Store;

    closed spec fn view(&self) -> Store {
        Store {
            short_term_slots: self.short_term_slots,
            short_term_slot_duration: self.short_term_slot_duration,
            long_term_slot_duration: self.long_term_slot_duration,
            long_term_paras: self.long_term_paras@,
            short_term_paras: self.short_term_paras@,
            events: self.events@,
        }
    }
}

/// Whether `id` occurs in `list`.
fn contains_para(list: &Vec<ParaId>, id: ParaId) -> (found: bool)
    ensures
        found == list@.contains(id),
{
    let mut i: usize = 0;
    while i < list.len()
        invariant
            i <= list.len(),
            forall|j: int| 0 <= j < i ==> list@[j] != id,
        decreases list.len() - i,
    {
        if list[i] == id {
            return true;
        }
        i += 1;
    }
    false
}

impl Pallet {
    /// A registry in which nothing was ever set.
    pub fn new() -> (pallet: Self)
        ensures
            pallet@ == Store::empty(),
    {
        Pallet {
            short_term_slots: 0,
            short_term_slot_duration: 0,
            long_term_slot_duration: 0,
            long_term_paras: Vec::new(),
            short_term_paras: Vec::new(),
            events: Vec::new(),
        }
    }

    /// A registry over state that the host has kept: the three counters and
    /// the two lists are taken as they are, and no event is pending.
    pub fn from_storage(
        short_term_slots: u32,
        short_term_slot_duration: u32,
        long_term_slot_duration: u32,
        long_term_paras: Vec<ParaId>,
        short_term_paras: Vec<ParaId>,
    ) -> (pallet: Self)
        ensures
            pallet@ == (Store {
                short_term_slots,
                short_term_slot_duration,
                long_term_slot_duration,
                long_term_paras: long_term_paras@,
                short_term_paras: short_term_paras@,
                events: Seq::empty(),
            }),
    {
        Pallet {
            short_term_slots,
            short_term_slot_duration,
            long_term_slot_duration,
            long_term_paras,
            short_term_paras,
            events: Vec::new(),
        }
    }

    /// Number of short-term slots: how many parathreads are upgraded to
    /// parachains every rotation.
    pub fn short_term_slots(&self) -> (n: u32)
        ensures
            n == self@.short_term_slots,
    {
        self.short_term_slots
    }

    /// Number of leases assigned to a short-term slot.
    pub fn short_term_slot_duration(&self) -> (n: u32)
        ensures
            n == self@.short_term_slot_duration,
    {
        self.short_term_slot_duration
    }

    /// Number of leases assigned to a long-term slot.
    pub fn long_term_slot_duration(&self) -> (n: u32)
        ensures
            n == self@.long_term_slot_duration,
    {
        self.long_term_slot_duration
    }

    /// Paras registered for a long-term slot, oldest first.
    pub fn long_term_paras(&self) -> (paras: &Vec<ParaId>)
        ensures
            paras@ == self@.long_term_paras,
    {
        &self.long_term_paras
    }

    /// Paras registered for a short-term slot, oldest first.
    pub fn short_term_paras(&self) -> (paras: &Vec<ParaId>)
        ensures
            paras@ == self@.short_term_paras,
    {
        &self.short_term_paras
    }

    /// Events emitted since the log was last taken, oldest first.
    pub fn events(&self) -> (events: &Vec<Event>)
        ensures
            events@ == self@.events,
    {
        &self.events
    }

    /// Sets the number of short-term slots and touches nothing else.
    pub fn set_short_term_slots(&mut self, slots: u32)
        ensures
            final(self)@ == (Store { short_term_slots: slots, ..old(self)@ }),
    {
        self.short_term_slots = slots;
    }

    /// Sets the number of leases of a short-term slot and touches nothing else.
    pub fn set_short_term_slot_duration(&mut self, leases: u32)
        ensures
            final(self)@ == (Store { short_term_slot_duration: leases, ..old(self)@ }),
    {
        self.short_term_slot_duration = leases;
    }

    /// Sets the number of leases of a long-term slot and touches nothing else.
    pub fn set_long_term_slot_duration(&mut self, leases: u32)
        ensures
            final(self)@ == (Store { long_term_slot_duration: leases, ..old(self)@ }),
    {
        self.long_term_slot_duration = leases;
    }

    /// Hands the pending events to the host, oldest first, and empties the
    /// log. Counters and lists stay as they are.
    pub fn take_events(&mut self) -> (events: Vec<Event>)
        ensures
            events@ == old(self)@.events,
            final(self)@ == old(self)@.flush(),
    {
        let mut events: Vec<Event> = Vec::new();
        std::mem::swap(&mut events, &mut self.events);
        events
    }

    /// Whether `id` already holds a slot of either kind. Registration does not
    /// consult this: a host that wants every para registered at most once
    /// asks here first.
    pub fn already_registered(&self, id: ParaId) -> (found: bool)
        ensures
            found == self@.already_registered(id),
    {
        contains_para(&self.long_term_paras, id) || contains_para(&self.short_term_paras, id)
    }

    /// Registers `id` for a slot of kind `slot_type` if a para in state
    /// `lifecycle` is eligible, without asking who is calling.
    fn do_register(
        &mut self,
        id: ParaId,
        slot_type: SlotType,
        lifecycle: Option<ParaLifeCycle>,
    ) -> (r: Result<(), Error>)
        ensures
            r == eligibility(lifecycle),
            final(self)@ == old(self)@.settle(r, slot_type, id),
    {
        // Para must be a parathread
        match ensure_parathread(lifecycle) {
            Ok(_) => {},
            Err(e) => {
                return Err(e);
            },
        }
        // Insert id according to the slot type
        match slot_type {
            SlotType::LongTerm => {
                self.long_term_paras.push(id);
                self.events.push(Event::LongTermParaRegistered(id));
            },
            SlotType::ShortTerm => {
                self.short_term_paras.push(id);
                self.events.push(Event::ShortTermParaRegistered(id));
            },
        }
        Ok(())
    }

    /// The long-term registration of `id`, by `origin`, where the lifecycle
    /// tracker reports `lifecycle` for `id`.
    ///
    /// `origin` must be root, else the call fails with `InvalidOrigin`. Unless
    /// `lifecycle` is `Parathread` the call fails with `NotParathread`. The
    /// caller is judged before the para. On success `id` is appended to the
    /// long-term list and `LongTermParaRegistered` is emitted. On failure
    /// nothing changes.
    pub fn register_long_term_para_with<AccountId>(
        &mut self,
        origin: Origin<AccountId>,
        id: ParaId,
        lifecycle: Option<ParaLifeCycle>,
    ) -> (r: Result<(), Error>)
        ensures
            r == long_term_verdict(origin, lifecycle),
            final(self)@ == old(self)@.settle(r, SlotType::LongTerm, id),
            !(origin is Root) ==> r == Err::<(), Error>(Error::InvalidOrigin),
            origin is Root && lifecycle != Some(ParaLifeCycle::Parathread) ==> r == Err::<
                (),
                Error,
            >(Error::NotParathread),
            origin is Root && lifecycle == Some(ParaLifeCycle::Parathread) ==> r is Ok,
            r is Ok ==> final(self)@.long_term_paras == old(self)@.long_term_paras.push(id)
                && final(self)@.events == old(self)@.events.push(Event::LongTermParaRegistered(id))
                && final(self)@.short_term_paras == old(self)@.short_term_paras,
            r is Err ==> final(self)@ == old(self)@,
    {
        match origin.ensure_root() {
            Ok(_) => {},
            Err(e) => {
                return Err(e);
            },
        }
        self.do_register(id, SlotType::LongTerm, lifecycle)
    }

    /// The short-term registration of `id`, by `origin`, where the registrar
    /// has `manager` on record for `id` and the lifecycle tracker reports
    /// `lifecycle`.
    ///
    /// A caller that is no authenticated account fails with `InvalidOrigin`;
    /// an authenticated one fails with `InvalidParaId` if there is no manager
    /// on record, and with `InvalidOrigin` if the manager is another account.
    /// Unless `lifecycle` is `Parathread` the call then fails with
    /// `NotParathread`. On success `id` is appended to the short-term list
    /// and `ShortTermParaRegistered` is emitted. On failure nothing changes.
    pub fn register_short_term_para_with<AccountId: PartialEq>(
        &mut self,
        origin: Origin<AccountId>,
        id: ParaId,
        manager: Option<AccountId>,
        lifecycle: Option<ParaLifeCycle>,
    ) -> (r: Result<(), Error>)
        requires
            obeys_concrete_eq::<AccountId>(),
        ensures
            r == short_term_verdict(origin, manager, lifecycle),
            final(self)@ == old(self)@.settle(r, SlotType::ShortTerm, id),
            !(origin is Signed) ==> r == Err::<(), Error>(Error::InvalidOrigin),
            origin is Signed && manager is None ==> r == Err::<(), Error>(Error::InvalidParaId),
            manager matches Some(m) && origin != Origin::Signed(m) ==> r == Err::<(), Error>(
                Error::InvalidOrigin,
            ),
            manager matches Some(m) && origin == Origin::Signed(m) && lifecycle != Some(
                ParaLifeCycle::Parathread,
            ) ==> r == Err::<(), Error>(Error::NotParathread),
            manager matches Some(m) && origin == Origin::Signed(m) && lifecycle == Some(
                ParaLifeCycle::Parathread,
            ) ==> r is Ok,
            r is Ok ==> final(self)@.short_term_paras == old(self)@.short_term_paras.push(id)
                && final(self)@.events == old(self)@.events.push(Event::ShortTermParaRegistered(id))
                && final(self)@.long_term_paras == old(self)@.long_term_paras,
            r is Err ==> final(self)@ == old(self)@,
    {
        match ensure_manager(origin, manager) {
            Ok(_) => {},
            Err(e) => {
                return Err(e);
            },
        }
        self.do_register(id, SlotType::ShortTerm, lifecycle)
    }

    /// Register a parathread as a long term para.
    /// Fails if para is not registered as parathread.
    ///
    /// `origin` must be root. The lifecycle tracker of `host` is asked for
    /// the state of `id` only once the caller is accepted, and the outcome is
    /// that of `register_long_term_para_with` on what it answers.
    ///
    /// `LongTermParaRegistered` is emitted in case of success.
    pub fn register_long_term_para<T: Config>(
        &mut self,
        host: &T,
        origin: Origin<T::AccountId>,
        id: ParaId,
    ) -> (r: Result<(), Error>)
        ensures
            exists|lifecycle: Option<ParaLifeCycle>|
                (origin is Root ==> call_ensures(T::lifecycle, (host, id), lifecycle)) && r
                    == #[trigger] long_term_verdict(origin, lifecycle),
            !(origin is Root) ==> r == Err::<(), Error>(Error::InvalidOrigin),
            final(self)@ == old(self)@.settle(r, SlotType::LongTerm, id),
            r is Ok ==> final(self)@.long_term_paras == old(self)@.long_term_paras.push(id)
                && final(self)@.events == old(self)@.events.push(Event::LongTermParaRegistered(id))
                && final(self)@.short_term_paras == old(self)@.short_term_paras,
            r is Err ==> final(self)@ == old(self)@,
    {
        // Long term paras will be registered by root
        match origin.ensure_root() {
            Ok(_) => {},
            Err(e) => {
                assert(long_term_verdict(origin, None) == Err::<(), Error>(e));
                return Err(e);
            },
        }
        let lifecycle = host.lifecycle(id);
        let r = self.do_register(id, SlotType::LongTerm, lifecycle);
        assert(r == long_term_verdict(origin, lifecycle));
        r
    }

    /// Register a parathread as a short term para.
    /// Fails if para is not registered as parathread.
    ///
    /// `origin` must be signed, and `id` must be managed by the signing
    /// account. The registrar of `host` is asked for the manager of `id` only
    /// if the caller is signed, and its lifecycle tracker only once the
    /// caller is accepted. The outcome is that of
    /// `register_short_term_para_with` on what they answer.
    ///
    /// `ShortTermParaRegistered` is emitted in case of success.
    pub fn register_short_term_para<T: Config>(
        &mut self,
        host: &T,
        origin: Origin<T::AccountId>,
        id: ParaId,
    ) -> (r: Result<(), Error>)
        requires
            obeys_concrete_eq::<T::AccountId>(),
        ensures
            exists|manager: Option<T::AccountId>, lifecycle: Option<ParaLifeCycle>|
                (origin is Signed ==> call_ensures(T::manager_of, (host, id), manager)) && (
                manager_authorization(origin, manager) is Ok ==> call_ensures(
                    T::lifecycle,
                    (host, id),
                    lifecycle,
                )) && r == #[trigger] short_term_verdict(origin, manager, lifecycle),
            !(origin is Signed) ==> r == Err::<(), Error>(Error::InvalidOrigin),
            final(self)@ == old(self)@.settle(r, SlotType::ShortTerm, id),
            r is Ok ==> final(self)@.short_term_paras == old(self)@.short_term_paras.push(id)
                && final(self)@.events == old(self)@.events.push(Event::ShortTermParaRegistered(id))
                && final(self)@.long_term_paras == old(self)@.long_term_paras,
            r is Err ==> final(self)@ == old(self)@,
    {
        // Check for signed origin.
        match &origin {
            Origin::Signed(_) => {},
            _ => {
                assert(short_term_verdict(origin, None, None) == Err::<(), Error>(
                    Error::InvalidOrigin,
                ));
                return Err(Error::InvalidOrigin);
            },
        }
        let manager = host.manager_of(id);
        let ghost on_record = manager;
        match ensure_manager(origin, manager) {
            Ok(_) => {},
            Err(e) => {
                assert(short_term_verdict(origin, on_record, None) == Err::<(), Error>(e));
                return Err(e);
            },
        }
        let lifecycle = host.lifecycle(id);
        let r = self.do_register(id, SlotType::ShortTerm, lifecycle);
        assert(r == short_term_verdict(origin, on_record, lifecycle));
        r
    }
}

impl Default for Pallet {
    fn default() -> (pallet: Self)
        ensures
            pallet@ == Store::empty(),
    {
        Pallet::new()
    }
}

} // verus!
