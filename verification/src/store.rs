//! The mathematical model of the registry: three counters, the two lists of
//! registered paras and the log of events, with the transitions that a
//! registration makes on them.

use crate::types::{Error, Event, ParaId, SlotType};
use vstd::prelude::*;

verus! {

/// What the registry holds, as plain mathematics.
#[verifier::ext_equal]
pub struct Store {
    /// Number of short-term slots per rotation.
    pub short_term_slots: u32,
    /// Number of leases assigned to a short-term slot.
    pub short_term_slot_duration: u32,
    /// Number of leases assigned to a long-term slot.
    pub long_term_slot_duration: u32,
    /// Paras registered for a long-term slot, oldest first.
    pub long_term_paras: Seq<ParaId>,
    /// Paras registered for a short-term slot, oldest first.
    pub short_term_paras: Seq<ParaId>,
    /// Events emitted and not yet handed to the host, oldest first.
    pub events: Seq<Event>,
}

impl Store {
    /// The store in which nothing was ever set: all counters are zero, both
    /// lists and the log are empty.
    pub open spec fn empty() -> Store {
        Store {
            short_term_slots: 0,
            short_term_slot_duration: 0,
            long_term_slot_duration: 0,
            long_term_paras: Seq::empty(),
            short_term_paras: Seq::empty(),
            events: Seq::empty(),
        }
    }

    /// The list that holds the paras registered for slots of kind `slot`.
    pub open spec fn paras(self, slot: SlotType) -> Seq<ParaId> {
        match slot {
            SlotType::LongTerm => self.long_term_paras,
            SlotType::ShortTerm => self.short_term_paras,
        }
    }

    /// Both lists, the long-term one first.
    pub open spec fn all_paras(self) -> Seq<ParaId> {
        self.long_term_paras + self.short_term_paras
    }

    /// The store after `id` was registered for a slot of kind `slot`: `id` is
    /// appended to the list of that kind, the matching event is appended to
    /// the log, and nothing else changes.
    pub open spec fn register(self, slot: SlotType, id: ParaId) -> Store {
        let events = self.events.push(Event::registration(slot, id));
        match slot {
            SlotType::LongTerm => Store {
                long_term_paras: self.long_term_paras.push(id),
                events,
                ..self
            },
            SlotType::ShortTerm => Store {
                short_term_paras: self.short_term_paras.push(id),
                events,
                ..self
            },
        }
    }

    /// The store after a call that ended with `verdict`: the registration is
    /// made if the call was accepted, and nothing changes if it was refused.
    pub open spec fn settle(self, verdict: Result<(), Error>, slot: SlotType, id: ParaId) -> Store {
        if verdict is Ok {
            self.register(slot, id)
        } else {
            self
        }
    }

    /// The store after the host took the events out of the log.
    pub open spec fn flush(self) -> Store {
        Store { events: Seq::empty(), ..self }
    }

    /// Whether `id` holds a slot of either kind.
    pub open spec fn already_registered(self, id: ParaId) -> bool {
        self.long_term_paras.contains(id) || self.short_term_paras.contains(id)
    }

    /// Whether every para appears at most once over both lists. Registration
    /// does not enforce this; see `already_registered`.
    pub open spec fn no_duplicates(self) -> bool {
        self.all_paras().no_duplicates()
    }
}

} // verus!
