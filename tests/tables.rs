use coolprop::{Indices, InputPair, Param, Phase, INPUT_PAIR_COUNT, PARAM_COUNT};

#[test]
fn phase_codes_round_trip() {
    for code in 0..=8 {
        let phase = Phase::from_code(code).expect("known code");
        assert_eq!(phase.code(), code);
    }
    assert_eq!(Phase::from_code(0), Some(Phase::Liquid));
    assert_eq!(Phase::from_code(6), Some(Phase::TwoPhase));
    assert_eq!(Phase::from_code(9), None);
    assert_eq!(Phase::from_code(-1), None);
}

#[test]
fn phase_tokens() {
    assert_eq!(Phase::Gas.specifier_token(), "phase_gas");
    assert_eq!(Phase::TwoPhase.specifier_token(), "phase_twophase");
    assert_eq!(Phase::NotImposed.specifier_token(), "phase_not_imposed");
    assert_eq!(Phase::Liquid.saturation_token(), Some("liquid"));
    assert_eq!(Phase::Gas.saturation_token(), Some("gas"));
    assert_eq!(Phase::TwoPhase.saturation_token(), Some("twophase"));
    assert_eq!(Phase::Supercritical.saturation_token(), None);
    assert_eq!(Phase::CriticalPoint.name(), "CriticalPoint");
}

#[test]
fn input_pair_table() {
    let all = InputPair::all();
    assert_eq!(all.len(), INPUT_PAIR_COUNT);
    assert_eq!(INPUT_PAIR_COUNT, 33);
    for (i, pair) in all.iter().enumerate() {
        assert_eq!(pair.index(), i);
        assert_eq!(InputPair::from_index(i), Some(*pair));
    }
    assert_eq!(InputPair::PT.as_coolprop_str(), "PT_INPUTS");
    assert_eq!(InputPair::DmolarT.as_coolprop_str(), "DmolarT_INPUTS");
    assert_eq!(InputPair::TUmass.index(), 32);
    assert_eq!(InputPair::from_index(33), None);
}

#[test]
fn param_table() {
    let all = Param::all();
    assert_eq!(all.len(), PARAM_COUNT);
    for (i, param) in all.iter().enumerate() {
        assert_eq!(param.index(), i);
        assert_eq!(Param::from_index(i), Some(*param));
    }
    assert_eq!(Param::T.as_coolprop_str(), "T");
    assert_eq!(Param::HmolarResidual.as_coolprop_str(), "Hmolar_residual");
    assert_eq!(Param::PCritical.as_coolprop_str(), "p_critical");
    assert_eq!(Param::Phase.as_coolprop_str(), "Phase");
    assert_eq!(Param::from_index(PARAM_COUNT), None);
}

#[test]
fn indices_look_up_by_position() {
    let pairs: Vec<i64> = (0..INPUT_PAIR_COUNT as i64).map(|i| 100 + i).collect();
    let params: Vec<i64> = (0..PARAM_COUNT as i64).map(|i| 1000 + i).collect();
    let table = Indices::new(pairs, params).expect("complete table");
    assert_eq!(table.id_of_pair(InputPair::PT), 100);
    assert_eq!(table.id_of_pair(InputPair::DmolarT), 100 + InputPair::DmolarT.index() as i64);
    assert_eq!(table.id_of_param(Param::Hmass), 1000 + Param::Hmass.index() as i64);
}

#[test]
fn indices_reject_incomplete_tables() {
    assert!(Indices::new(vec![1, 2], vec![0; PARAM_COUNT]).is_none());
    assert!(Indices::new(vec![0; INPUT_PAIR_COUNT], vec![]).is_none());
}
