use slot_registry::{Config, Error, Event, Origin, Pallet, ParaId, ParaLifeCycle};
use std::cell::Cell;

/// A host with a fixed table of paras, which counts the lookups it answers.
struct Host {
    paras: Vec<(ParaId, Option<ParaLifeCycle>, Option<u64>)>,
    lifecycle_lookups: Cell<u32>,
    manager_lookups: Cell<u32>,
}

impl Host {
    fn new(paras: Vec<(ParaId, Option<ParaLifeCycle>, Option<u64>)>) -> Host {
        Host { paras, lifecycle_lookups: Cell::new(0), manager_lookups: Cell::new(0) }
    }
}

impl Config for Host {
    type AccountId = u64;

    fn lifecycle(&self, id: ParaId) -> Option<ParaLifeCycle> {
        self.lifecycle_lookups.set(self.lifecycle_lookups.get() + 1);
        self.paras.iter().find(|entry| entry.0 == id).and_then(|entry| entry.1)
    }

    fn manager_of(&self, id: ParaId) -> Option<u64> {
        self.manager_lookups.set(self.manager_lookups.get() + 1);
        self.paras.iter().find(|entry| entry.0 == id).and_then(|entry| entry.2)
    }
}

fn host() -> Host {
    Host::new(vec![
        (ParaId(7), Some(ParaLifeCycle::Parathread), Some(70)),
        (ParaId(8), Some(ParaLifeCycle::Parachain), Some(80)),
        (ParaId(9), Some(ParaLifeCycle::Parathread), None),
        (ParaId(10), None, Some(100)),
        (ParaId(11), Some(ParaLifeCycle::UpgradingParathread), Some(110)),
    ])
}

#[test]
fn root_registers_parathread_seven_through_the_host() {
    let host = host();
    let mut pallet = Pallet::new();
    let result = pallet.register_long_term_para(&host, Origin::Root, ParaId(7));
    assert_eq!(result, Ok(()));
    assert_eq!(pallet.long_term_paras(), &vec![ParaId(7)]);
    assert_eq!(pallet.events(), &vec![Event::LongTermParaRegistered(ParaId(7))]);
    assert_eq!(pallet.short_term_paras(), &Vec::<ParaId>::new());
    assert_eq!(host.lifecycle_lookups.get(), 1);
    assert_eq!(host.manager_lookups.get(), 0);
}

#[test]
fn root_registers_the_same_para_twice_through_the_host() {
    let host = host();
    let mut pallet = Pallet::new();
    assert_eq!(pallet.register_long_term_para(&host, Origin::Root, ParaId(7)), Ok(()));
    assert_eq!(pallet.register_long_term_para(&host, Origin::Root, ParaId(7)), Ok(()));
    assert_eq!(pallet.long_term_paras(), &vec![ParaId(7), ParaId(7)]);
    assert_eq!(
        pallet.events(),
        &vec![
            Event::LongTermParaRegistered(ParaId(7)),
            Event::LongTermParaRegistered(ParaId(7)),
        ]
    );
}

#[test]
fn host_paras_that_are_no_parathreads_are_refused() {
    let host = host();
    for raw in [8u32, 10, 11, 12] {
        let mut pallet = Pallet::new();
        let result = pallet.register_long_term_para(&host, Origin::Root, ParaId(raw));
        assert_eq!(result, Err(Error::NotParathread));
        assert_eq!(pallet, Pallet::new());
    }
    for (raw, manager) in [(8u32, 80u64), (10, 100), (11, 110)] {
        let mut pallet = Pallet::new();
        let result = pallet.register_short_term_para(&host, Origin::Signed(manager), ParaId(raw));
        assert_eq!(result, Err(Error::NotParathread));
        assert_eq!(pallet, Pallet::new());
    }
}

#[test]
fn non_root_caller_is_refused_before_the_tracker_is_asked() {
    for origin in [Origin::Signed(70u64), Origin::Anonymous] {
        let host = host();
        let mut pallet = Pallet::new();
        let result = pallet.register_long_term_para(&host, origin, ParaId(7));
        assert_eq!(result, Err(Error::InvalidOrigin));
        assert_eq!(pallet, Pallet::new());
        assert_eq!(host.lifecycle_lookups.get(), 0);
        assert_eq!(host.manager_lookups.get(), 0);
    }
}

#[test]
fn manager_registers_through_the_host() {
    let host = host();
    let mut pallet = Pallet::new();
    let result = pallet.register_short_term_para(&host, Origin::Signed(70), ParaId(7));
    assert_eq!(result, Ok(()));
    assert_eq!(pallet.short_term_paras(), &vec![ParaId(7)]);
    assert_eq!(pallet.events(), &vec![Event::ShortTermParaRegistered(ParaId(7))]);
    assert!(pallet.long_term_paras().is_empty());
    assert_eq!(host.manager_lookups.get(), 1);
    assert_eq!(host.lifecycle_lookups.get(), 1);
}

#[test]
fn stranger_is_refused_before_the_tracker_is_asked() {
    for raw in [7u32, 8, 10, 11] {
        let host = host();
        let mut pallet = Pallet::new();
        let result = pallet.register_short_term_para(&host, Origin::Signed(1), ParaId(raw));
        assert_eq!(result, Err(Error::InvalidOrigin));
        assert_eq!(pallet, Pallet::new());
        assert_eq!(host.manager_lookups.get(), 1);
        assert_eq!(host.lifecycle_lookups.get(), 0);
    }
}

#[test]
fn para_without_manager_is_invalid_through_the_host() {
    for raw in [9u32, 12] {
        let host = host();
        let mut pallet = Pallet::new();
        let result = pallet.register_short_term_para(&host, Origin::Signed(70), ParaId(raw));
        assert_eq!(result, Err(Error::InvalidParaId));
        assert_eq!(pallet, Pallet::new());
        assert_eq!(host.manager_lookups.get(), 1);
        assert_eq!(host.lifecycle_lookups.get(), 0);
    }
}

#[test]
fn unsigned_caller_is_refused_before_the_registrar_is_asked() {
    for origin in [Origin::Root, Origin::Anonymous] {
        for raw in [7u32, 9, 12] {
            let host = host();
            let mut pallet = Pallet::new();
            let result = pallet.register_short_term_para(&host, origin.clone(), ParaId(raw));
            assert_eq!(result, Err(Error::InvalidOrigin));
            assert_eq!(pallet, Pallet::new());
            assert_eq!(host.manager_lookups.get(), 0);
            assert_eq!(host.lifecycle_lookups.get(), 0);
        }
    }
}

#[test]
fn host_calls_agree_with_the_calls_on_looked_up_values() {
    let origins = [Origin::Root, Origin::Signed(70u64), Origin::Signed(80), Origin::Anonymous];
    for origin in origins {
        for raw in 6u32..13 {
            let id = ParaId(raw);
            let looked_up = host();
            let lifecycle = looked_up.lifecycle(id);
            let manager = looked_up.manager_of(id);

            let mut through_host = Pallet::new();
            let mut on_values = Pallet::new();
            assert_eq!(
                through_host.register_long_term_para(&host(), origin.clone(), id),
                on_values.register_long_term_para_with(origin.clone(), id, lifecycle)
            );
            assert_eq!(
                through_host.register_short_term_para(&host(), origin.clone(), id),
                on_values.register_short_term_para_with(origin.clone(), id, manager, lifecycle)
            );
            assert_eq!(through_host, on_values);
        }
    }
}
