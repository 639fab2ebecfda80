//! What holds of the registry on every input. Each law is stated over the
//! store and the verdicts that the contracts of `Pallet` speak of, so it holds
//! of every registration: of the calls that are given the lifecycle state and
//! the manager, and of the calls that ask the host for them.

use crate::rules::{eligibility, long_term_verdict, manager_authorization, short_term_verdict};
use crate::store::Store;
use crate::types::{Error, Event, Origin, ParaId, ParaLifeCycle, SlotType};
use vstd::prelude::*;

verus! {

/// The store after `register_long_term_para_with(origin, id, lifecycle)`.
pub open spec fn after_long_term<AccountId>(
    store: Store,
    origin: Origin<AccountId>,
    id: ParaId,
    lifecycle: Option<ParaLifeCycle>,
) -> Store {
    store.settle(long_term_verdict(origin, lifecycle), SlotType::LongTerm, id)
}

/// The store after `register_short_term_para_with(origin, id, manager, lifecycle)`.
pub open spec fn after_short_term<AccountId>(
    store: Store,
    origin: Origin<AccountId>,
    id: ParaId,
    manager: Option<AccountId>,
    lifecycle: Option<ParaLifeCycle>,
) -> Store {
    store.settle(short_term_verdict(origin, manager, lifecycle), SlotType::ShortTerm, id)
}

/// Whether two stores hold the same three counters.
pub open spec fn same_counters(a: Store, b: Store) -> bool {
    &&& a.short_term_slots == b.short_term_slots
    &&& a.short_term_slot_duration == b.short_term_slot_duration
    &&& a.long_term_slot_duration == b.long_term_slot_duration
}

/// The outcomes of a long-term registration, each with the inputs on which
/// it comes: success for root and a parathread, `InvalidOrigin` for every
/// other caller, `NotParathread` for root and any other para. No other error
/// is ever answered.
pub proof fn long_term_outcomes<AccountId>(
    origin: Origin<AccountId>,
    lifecycle: Option<ParaLifeCycle>,
)
    ensures
        long_term_verdict(origin, lifecycle) is Ok <==> (origin is Root && lifecycle == Some(
            ParaLifeCycle::Parathread,
        )),
        long_term_verdict(origin, lifecycle) == Err::<(), Error>(Error::InvalidOrigin) <==> !(origin
            is Root),
        long_term_verdict(origin, lifecycle) == Err::<(), Error>(Error::NotParathread) <==> (origin
            is Root && lifecycle != Some(ParaLifeCycle::Parathread)),
        long_term_verdict(origin, lifecycle) matches Err(e) ==> e == Error::InvalidOrigin || e
            == Error::NotParathread,
{
}

/// The outcomes of a short-term registration, each with the inputs on which
/// it comes: success for the manager of a parathread, `InvalidOrigin` for a
/// caller that is no authenticated account or is another account than the
/// manager on record, `InvalidParaId` for an authenticated account where no
/// manager is on record, `NotParathread` for the manager of any other para.
/// No other error is ever answered.
pub proof fn short_term_outcomes<AccountId>(
    origin: Origin<AccountId>,
    manager: Option<AccountId>,
    lifecycle: Option<ParaLifeCycle>,
)
    ensures
        manager_authorization(origin, manager) is Ok <==> (manager matches Some(m) && origin
            == Origin::Signed(m)),
        short_term_verdict(origin, manager, lifecycle) is Ok <==> (manager_authorization(
            origin,
            manager,
        ) is Ok && lifecycle == Some(ParaLifeCycle::Parathread)),
        short_term_verdict(origin, manager, lifecycle) == Err::<(), Error>(Error::InvalidOrigin)
            <==> (!(origin is Signed) || (manager matches Some(m) && origin != Origin::Signed(m))),
        short_term_verdict(origin, manager, lifecycle) == Err::<(), Error>(Error::InvalidParaId)
            <==> (origin is Signed && manager is None),
        short_term_verdict(origin, manager, lifecycle) == Err::<(), Error>(Error::NotParathread)
            <==> (manager_authorization(origin, manager) is Ok && lifecycle != Some(
            ParaLifeCycle::Parathread,
        )),
        short_term_verdict(origin, manager, lifecycle) matches Err(e) ==> e == Error::InvalidOrigin
            || e == Error::InvalidParaId || e == Error::NotParathread,
{
}

/// A call by root for a para that is a parathread succeeds. It adds one entry
/// to the long-term list, the para, and one event to the log,
/// `LongTermParaRegistered` of the para. The short-term list and the counters
/// stay as they were.
pub proof fn root_registers_parathread<AccountId>(
    store: Store,
    origin: Origin<AccountId>,
    id: ParaId,
    lifecycle: Option<ParaLifeCycle>,
)
    requires
        origin is Root,
        lifecycle == Some(ParaLifeCycle::Parathread),
    ensures
        long_term_verdict(origin, lifecycle) == Ok::<(), Error>(()),
        after_long_term(store, origin, id, lifecycle).long_term_paras
            == store.long_term_paras.push(id),
        after_long_term(store, origin, id, lifecycle).long_term_paras.contains(id),
        after_long_term(store, origin, id, lifecycle).events == store.events.push(
            Event::LongTermParaRegistered(id),
        ),
        after_long_term(store, origin, id, lifecycle).short_term_paras == store.short_term_paras,
        same_counters(after_long_term(store, origin, id, lifecycle), store),
{
    let after = after_long_term(store, origin, id, lifecycle);
    assert(after.long_term_paras[store.long_term_paras.len() as int] == id);
}

/// A para that is not a parathread, whether it is in another state or unknown
/// to the tracker, is registered by neither call, whoever asks: the call
/// fails and the store stays as it was. Where the caller is authorized, root
/// for a long-term slot and the manager of the para for a short-term slot,
/// the error is `NotParathread`.
pub proof fn ineligible_para_is_refused<AccountId>(
    store: Store,
    origin: Origin<AccountId>,
    id: ParaId,
    manager: Option<AccountId>,
    lifecycle: Option<ParaLifeCycle>,
)
    requires
        lifecycle != Some(ParaLifeCycle::Parathread),
    ensures
        long_term_verdict(origin, lifecycle) is Err,
        short_term_verdict(origin, manager, lifecycle) is Err,
        after_long_term(store, origin, id, lifecycle) == store,
        after_short_term(store, origin, id, manager, lifecycle) == store,
        origin is Root ==> long_term_verdict(origin, lifecycle) == Err::<(), Error>(
            Error::NotParathread,
        ),
        manager_authorization(origin, manager) is Ok ==> short_term_verdict(
            origin,
            manager,
            lifecycle,
        ) == Err::<(), Error>(Error::NotParathread),
{
}

/// Where a para has a manager on record, a call for a short-term slot by
/// anyone else fails with `InvalidOrigin`, whatever state the para is in. A
/// call by the manager for a parathread succeeds: it adds the para to the
/// short-term list and `ShortTermParaRegistered` of the para to the log, and
/// leaves the long-term list and the counters as they were.
pub proof fn manager_alone_registers_short_term<AccountId>(
    store: Store,
    origin: Origin<AccountId>,
    id: ParaId,
    m: AccountId,
    lifecycle: Option<ParaLifeCycle>,
)
    ensures
        origin != Origin::Signed(m) ==> short_term_verdict(origin, Some(m), lifecycle) == Err::<
            (),
            Error,
        >(Error::InvalidOrigin),
        origin == Origin::Signed(m) && lifecycle == Some(ParaLifeCycle::Parathread) ==> ({
            let after = after_short_term(store, origin, id, Some(m), lifecycle);
            &&& short_term_verdict(origin, Some(m), lifecycle) == Ok::<(), Error>(())
            &&& after.short_term_paras == store.short_term_paras.push(id)
            &&& after.short_term_paras.contains(id)
            &&& after.events == store.events.push(Event::ShortTermParaRegistered(id))
            &&& after.long_term_paras == store.long_term_paras
            &&& same_counters(after, store)
        }),
{
    if origin == Origin::Signed(m) && lifecycle == Some(ParaLifeCycle::Parathread) {
        let after = after_short_term(store, origin, id, Some(m), lifecycle);
        assert(after.short_term_paras[store.short_term_paras.len() as int] == id);
    }
}

/// A call for a short-term slot by an authenticated account, for a para with
/// no manager on record, fails with `InvalidParaId`, whatever state the para
/// is in, and changes nothing.
pub proof fn para_without_manager_is_refused<AccountId>(
    store: Store,
    origin: Origin<AccountId>,
    id: ParaId,
    lifecycle: Option<ParaLifeCycle>,
)
    requires
        origin is Signed,
    ensures
        short_term_verdict(origin, None, lifecycle) == Err::<(), Error>(Error::InvalidParaId),
        after_short_term(store, origin, id, None, lifecycle) == store,
{
}

/// A call for a long-term slot by anyone but root fails with `InvalidOrigin`,
/// whatever state the para is in, and changes nothing.
pub proof fn long_term_needs_root<AccountId>(
    store: Store,
    origin: Origin<AccountId>,
    id: ParaId,
    lifecycle: Option<ParaLifeCycle>,
)
    requires
        !(origin is Root),
    ensures
        long_term_verdict(origin, lifecycle) == Err::<(), Error>(Error::InvalidOrigin),
        after_long_term(store, origin, id, lifecycle) == store,
{
}

/// A caller who is not authorized learns nothing about the para: the answer
/// is the same for every lifecycle state.
pub proof fn refusal_of_caller_hides_eligibility<AccountId>(
    origin: Origin<AccountId>,
    manager: Option<AccountId>,
    a: Option<ParaLifeCycle>,
    b: Option<ParaLifeCycle>,
)
    ensures
        !(origin is Root) ==> long_term_verdict(origin, a) == long_term_verdict(origin, b),
        manager_authorization(origin, manager) is Err ==> short_term_verdict(origin, manager, a)
            == short_term_verdict(origin, manager, b),
        manager_authorization(origin, manager) is Err ==> short_term_verdict(origin, manager, a)
            == manager_authorization(origin, manager),
{
}

/// Registration does not look for duplicates: two calls by root in a row for
/// the same parathread both succeed, and leave the para twice at the end of
/// the long-term list and its event twice at the end of the log.
pub proof fn repeated_registration_is_recorded_twice<AccountId>(
    store: Store,
    origin: Origin<AccountId>,
    id: ParaId,
    lifecycle: Option<ParaLifeCycle>,
)
    requires
        origin is Root,
        lifecycle == Some(ParaLifeCycle::Parathread),
    ensures
        ({
            let once = after_long_term(store, origin, id, lifecycle);
            let twice = after_long_term(once, origin, id, lifecycle);
            &&& twice.long_term_paras == store.long_term_paras + seq![id, id]
            &&& twice.events == store.events + seq![
                Event::LongTermParaRegistered(id),
                Event::LongTermParaRegistered(id),
            ]
            &&& twice.short_term_paras == store.short_term_paras
            &&& same_counters(twice, store)
        }),
{
}

/// Whatever a call answers, it only ever appends: each list and the log
/// before the call are a prefix of the same after it, and the counters are
/// untouched. An accepted call makes the list of its kind and the log one
/// entry longer and leaves the other list alone; a refused call changes
/// nothing. So an event is emitted if and only if a para was added.
pub proof fn call_only_appends(store: Store, verdict: Result<(), Error>, slot: SlotType, id: ParaId)
    ensures
        ({
            let after = store.settle(verdict, slot, id);
            let other = match slot {
                SlotType::LongTerm => SlotType::ShortTerm,
                SlotType::ShortTerm => SlotType::LongTerm,
            };
            &&& store.long_term_paras.is_prefix_of(after.long_term_paras)
            &&& store.short_term_paras.is_prefix_of(after.short_term_paras)
            &&& store.events.is_prefix_of(after.events)
            &&& same_counters(after, store)
            &&& after.paras(other) == store.paras(other)
            &&& verdict is Ok ==> after.paras(slot) == store.paras(slot).push(id) && after.events
                == store.events.push(Event::registration(slot, id))
            &&& verdict is Err ==> after == store
        }),
{
}

/// A slot is never lost: a para that holds a slot of some kind before a call
/// holds it after the call, whatever the call answers. A para that a call
/// registers holds a slot of that kind afterwards.
pub proof fn slot_is_never_lost(
    store: Store,
    verdict: Result<(), Error>,
    slot: SlotType,
    id: ParaId,
    other: ParaId,
)
    ensures
        store.long_term_paras.contains(other) ==> store.settle(
            verdict,
            slot,
            id,
        ).long_term_paras.contains(other),
        store.short_term_paras.contains(other) ==> store.settle(
            verdict,
            slot,
            id,
        ).short_term_paras.contains(other),
        verdict is Ok ==> store.settle(verdict, slot, id).paras(slot).contains(id),
{
    let after = store.settle(verdict, slot, id);
    if store.long_term_paras.contains(other) {
        let i = choose|i: int|
            0 <= i < store.long_term_paras.len() && store.long_term_paras[i] == other;
        assert(after.long_term_paras[i] == other);
    }
    if store.short_term_paras.contains(other) {
        let i = choose|i: int|
            0 <= i < store.short_term_paras.len() && store.short_term_paras[i] == other;
        assert(after.short_term_paras[i] == other);
    }
    if verdict is Ok {
        assert(after.paras(slot)[store.paras(slot).len() as int] == id);
    }
}

/// A host that registers only paras that hold no slot yet keeps every para
/// at most once over both lists, and the para it registers holds a slot
/// afterwards.
pub proof fn guarded_registration_keeps_paras_distinct(store: Store, slot: SlotType, id: ParaId)
    requires
        store.no_duplicates(),
        !store.already_registered(id),
    ensures
        store.register(slot, id).no_duplicates(),
        store.register(slot, id).already_registered(id),
{
    let before = store.all_paras();
    let after = store.register(slot, id).all_paras();
    let n = store.long_term_paras.len() as int;
    assert forall|i: int| 0 <= i < before.len() implies before[i] != id by {
        if i < n {
            assert(store.long_term_paras[i] == before[i]);
        } else {
            assert(store.short_term_paras[i - n] == before[i]);
        }
    }
    match slot {
        SlotType::LongTerm => {
            assert(store.register(slot, id).long_term_paras[n] == id);
            assert forall|i: int, j: int|
                0 <= i < after.len() && 0 <= j < after.len() && i != j implies after[i]
                != after[j] by {
                let bi = if i < n { i } else { i - 1 };
                let bj = if j < n { j } else { j - 1 };
                if i != n {
                    assert(after[i] == before[bi]);
                }
                if j != n {
                    assert(after[j] == before[bj]);
                }
            }
        },
        SlotType::ShortTerm => {
            assert(store.register(slot, id).short_term_paras[store.short_term_paras.len() as int]
                == id);
            assert forall|i: int, j: int|
                0 <= i < after.len() && 0 <= j < after.len() && i != j implies after[i]
                != after[j] by {
                if i < before.len() {
                    assert(after[i] == before[i]);
                }
                if j < before.len() {
                    assert(after[j] == before[j]);
                }
            }
        },
    }
}

} // verus!
