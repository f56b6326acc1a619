use pythia_markets::computation::Computation;

const ALL: [Computation; 8] = [
    Computation::InitializeMarket,
    Computation::InitializeUserPosition,
    Computation::ProcessPrivateTrade,
    Computation::UpdateUserPosition,
    Computation::RevealMarketState,
    Computation::HideMarketState,
    Computation::ViewMarketState,
    Computation::ViewUserPosition,
];

#[test]
fn computation_names_are_those_of_the_instructions() {
    assert_eq!(Computation::InitializeMarket.name(), "initialize_market");
    assert_eq!(Computation::InitializeUserPosition.name(), "initialize_user_position");
    assert_eq!(Computation::ProcessPrivateTrade.name(), "process_private_trade");
    assert_eq!(Computation::UpdateUserPosition.name(), "update_user_position");
    assert_eq!(Computation::RevealMarketState.name(), "reveal_market_state");
    assert_eq!(Computation::HideMarketState.name(), "hide_market_state");
    assert_eq!(Computation::ViewMarketState.name(), "view_market_state");
    assert_eq!(Computation::ViewUserPosition.name(), "view_user_position");
}

#[test]
fn computation_offsets_come_from_the_names() {
    assert_eq!(Computation::InitializeMarket.comp_def_offset(), 1_925_767_261);
    assert_eq!(Computation::InitializeUserPosition.comp_def_offset(), 1_878_934_295);
    assert_eq!(Computation::ProcessPrivateTrade.comp_def_offset(), 3_197_927_016);
    assert_eq!(Computation::UpdateUserPosition.comp_def_offset(), 2_925_935_304);
    assert_eq!(Computation::RevealMarketState.comp_def_offset(), 2_814_884_085);
    assert_eq!(Computation::HideMarketState.comp_def_offset(), 315_862_046);
    assert_eq!(Computation::ViewMarketState.comp_def_offset(), 2_057_481_019);
    assert_eq!(Computation::ViewUserPosition.comp_def_offset(), 1_426_654_110);
}

#[test]
fn computation_offsets_are_the_same_at_every_call() {
    for computation in ALL.iter() {
        assert_eq!(computation.comp_def_offset(), computation.comp_def_offset());
    }
}

#[test]
fn computation_offsets_tell_the_computations_apart() {
    for (i, a) in ALL.iter().enumerate() {
        for b in ALL.iter().skip(i + 1) {
            assert_ne!(a.comp_def_offset(), b.comp_def_offset());
        }
    }
}
