use slot_registry::{Error, Event, Origin, Pallet, ParaId, ParaLifeCycle};

fn every_state() -> Vec<Option<ParaLifeCycle>> {
    vec![
        None,
        Some(ParaLifeCycle::Onboarding),
        Some(ParaLifeCycle::Parathread),
        Some(ParaLifeCycle::Parachain),
        Some(ParaLifeCycle::UpgradingParathread),
        Some(ParaLifeCycle::DowngradingParachain),
        Some(ParaLifeCycle::OffboardingParathread),
        Some(ParaLifeCycle::OffboardingParachain),
    ]
}

#[test]
fn root_registers_parathread_seven_on_empty_store() {
    let mut pallet = Pallet::new();
    assert_eq!(pallet.short_term_slots(), 0);
    assert_eq!(pallet.short_term_slot_duration(), 0);
    assert_eq!(pallet.long_term_slot_duration(), 0);
    assert!(pallet.long_term_paras().is_empty());
    assert!(pallet.short_term_paras().is_empty());

    let result = pallet.register_long_term_para_with(
        Origin::<u64>::Root,
        ParaId(7),
        Some(ParaLifeCycle::Parathread),
    );

    assert_eq!(result, Ok(()));
    assert_eq!(pallet.long_term_paras(), &vec![ParaId(7)]);
    assert_eq!(pallet.events(), &vec![Event::LongTermParaRegistered(ParaId(7))]);
    assert_eq!(pallet.short_term_paras(), &Vec::<ParaId>::new());
    assert_eq!(pallet.short_term_slots(), 0);
    assert_eq!(pallet.short_term_slot_duration(), 0);
    assert_eq!(pallet.long_term_slot_duration(), 0);
}

#[test]
fn root_registers_any_parathread() {
    for raw in [0u32, 1, 7, 2000, u32::MAX] {
        let mut pallet = Pallet::new();
        let result = pallet.register_long_term_para_with(
            Origin::<u64>::Root,
            ParaId(raw),
            Some(ParaLifeCycle::Parathread),
        );
        assert_eq!(result, Ok(()));
        assert_eq!(pallet.long_term_paras(), &vec![ParaId(raw)]);
        assert_eq!(pallet.events(), &vec![Event::LongTermParaRegistered(ParaId(raw))]);
        assert!(pallet.short_term_paras().is_empty());
    }
}

#[test]
fn long_term_registration_twice_keeps_both_entries() {
    let mut pallet = Pallet::new();
    let first = pallet.register_long_term_para_with(
        Origin::<u64>::Root,
        ParaId(7),
        Some(ParaLifeCycle::Parathread),
    );
    let second = pallet.register_long_term_para_with(
        Origin::<u64>::Root,
        ParaId(7),
        Some(ParaLifeCycle::Parathread),
    );
    assert_eq!(first, Ok(()));
    assert_eq!(second, Ok(()));
    assert_eq!(pallet.long_term_paras(), &vec![ParaId(7), ParaId(7)]);
    assert_eq!(
        pallet.events(),
        &vec![
            Event::LongTermParaRegistered(ParaId(7)),
            Event::LongTermParaRegistered(ParaId(7)),
        ]
    );
    assert!(pallet.short_term_paras().is_empty());
}

#[test]
fn long_term_registration_keeps_order_of_arrival() {
    let mut pallet = Pallet::new();
    for raw in [30u32, 10, 20] {
        let result = pallet.register_long_term_para_with(
            Origin::<u64>::Root,
            ParaId(raw),
            Some(ParaLifeCycle::Parathread),
        );
        assert_eq!(result, Ok(()));
    }
    assert_eq!(pallet.long_term_paras(), &vec![ParaId(30), ParaId(10), ParaId(20)]);
    assert_eq!(
        pallet.events(),
        &vec![
            Event::LongTermParaRegistered(ParaId(30)),
            Event::LongTermParaRegistered(ParaId(10)),
            Event::LongTermParaRegistered(ParaId(20)),
        ]
    );
}

#[test]
fn root_is_refused_for_every_state_but_parathread() {
    for lifecycle in every_state() {
        if lifecycle == Some(ParaLifeCycle::Parathread) {
            continue;
        }
        let mut pallet = Pallet::from_storage(1, 2, 3, vec![ParaId(5)], vec![ParaId(6)]);
        let before = pallet.clone();
        let result = pallet.register_long_term_para_with(Origin::<u64>::Root, ParaId(7), lifecycle);
        assert_eq!(result, Err(Error::NotParathread));
        assert_eq!(pallet, before);
        assert!(pallet.events().is_empty());
    }
}

#[test]
fn signed_caller_cannot_register_long_term() {
    for lifecycle in every_state() {
        let mut pallet = Pallet::new();
        let result = pallet.register_long_term_para_with(Origin::Signed(1u64), ParaId(7), lifecycle);
        assert_eq!(result, Err(Error::InvalidOrigin));
        assert_eq!(pallet, Pallet::new());
    }
}

#[test]
fn anonymous_caller_cannot_register_long_term() {
    for lifecycle in every_state() {
        let mut pallet = Pallet::new();
        let result =
            pallet.register_long_term_para_with(Origin::<u64>::Anonymous, ParaId(7), lifecycle);
        assert_eq!(result, Err(Error::InvalidOrigin));
        assert_eq!(pallet, Pallet::new());
    }
}

#[test]
fn long_term_registration_leaves_short_term_list_and_counters() {
    let mut pallet = Pallet::from_storage(4, 5, 6, vec![ParaId(1)], vec![ParaId(2), ParaId(3)]);
    let result = pallet.register_long_term_para_with(
        Origin::<u64>::Root,
        ParaId(9),
        Some(ParaLifeCycle::Parathread),
    );
    assert_eq!(result, Ok(()));
    assert_eq!(pallet.long_term_paras(), &vec![ParaId(1), ParaId(9)]);
    assert_eq!(pallet.short_term_paras(), &vec![ParaId(2), ParaId(3)]);
    assert_eq!(pallet.short_term_slots(), 4);
    assert_eq!(pallet.short_term_slot_duration(), 5);
    assert_eq!(pallet.long_term_slot_duration(), 6);
    assert_eq!(pallet.events(), &vec![Event::LongTermParaRegistered(ParaId(9))]);
}

#[test]
fn long_term_registration_never_answers_a_reserved_error() {
    let origins = [Origin::Root, Origin::Signed(1u64), Origin::Anonymous];
    for origin in origins {
        for lifecycle in every_state() {
            let mut pallet = Pallet::new();
            let result = pallet.register_long_term_para_with(origin.clone(), ParaId(7), lifecycle);
            assert!(matches!(
                result,
                Ok(()) | Err(Error::InvalidOrigin) | Err(Error::NotParathread)
            ));
        }
    }
}
