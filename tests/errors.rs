use coolprop::{
    batch_length, check_status, clone_fallback_fluid, phase_from_code, saturation_token_for, Error,
    Phase,
};

#[test]
fn error_messages() {
    let e = Error::CoolProp { code: 5, message: "bad input".to_string() };
    assert_eq!(e.message(), "CoolProp error 5: bad input");
    let e = Error::CoolProp { code: -120, message: String::new() };
    assert_eq!(e.message(), "CoolProp error -120: ");
    assert_eq!(Error::UnknownPhaseCode(42).message(), "phase code 42 is not recognized by CoolProp");
    assert_eq!(Error::InvalidInput("x".to_string()).message(), "invalid input: x");
    let e = Error::Computation { context: "PropsSI(T, P=1, Q=0, Water)".to_string(), message: "m".to_string() };
    assert_eq!(e.message(), "PropsSI(T, P=1, Q=0, Water) failed: m");
    let e = Error::GlobalParameter { param: "version".to_string(), message: "gone".to_string() };
    assert_eq!(e.message(), "global parameter `version` query failed: gone");
    let e = Error::EmbeddedNul { label: "fluid".to_string(), position: 0 };
    assert_eq!(e.message(), "embedded NUL byte in fluid");
    let e = Error::BufferLimit { context: "phase envelope".to_string(), limit: 1048576 };
    assert_eq!(e.message(), "buffer for phase envelope would exceed 1048576 elements");
    let e = Error::CoolPropGlobalError { message: "oops".to_string() };
    assert_eq!(e.message(), "CoolProp global error: oops");
    let e = Error::CoolProp { code: i64::MIN, message: "m".to_string() };
    assert_eq!(e.message(), format!("CoolProp error {}: m", i64::MIN));
}

#[test]
fn check_status_maps_codes() {
    let mut buf = vec![0i8; 8];
    for (i, b) in b"failure!".iter().enumerate() {
        buf[i] = *b as i8;
    }
    assert!(check_status(0, &buf).is_ok());
    match check_status(3, &buf) {
        Err(Error::CoolProp { code, message }) => {
            assert_eq!(code, 3);
            // The last byte is dropped to guarantee a terminator.
            assert_eq!(message, "failure");
        }
        other => panic!("unexpected result {other:?}"),
    }
    match check_status(-1, &[]) {
        Err(Error::CoolProp { code, message }) => {
            assert_eq!(code, -1);
            assert_eq!(message, "");
        }
        other => panic!("unexpected result {other:?}"),
    }
}

#[test]
fn phase_from_code_reports_unknown_codes() {
    assert_eq!(phase_from_code(5).ok(), Some(Phase::Gas));
    assert!(matches!(phase_from_code(12), Err(Error::UnknownPhaseCode(12))));
}

#[test]
fn saturation_token_for_rejects_phases_without_branch() {
    assert_eq!(saturation_token_for(Phase::Liquid, "outputs").ok(), Some("liquid"));
    match saturation_token_for(Phase::Supercritical, "outputs") {
        Err(Error::InvalidInput(m)) => {
            assert_eq!(m, "phase Supercritical cannot be used for saturation outputs")
        }
        other => panic!("unexpected result {other:?}"),
    }
}

#[test]
fn batch_length_requires_equal_lengths() {
    assert_eq!(batch_length(&[1.0, 2.0], &[3.0, 4.0]).ok(), Some(2));
    assert_eq!(batch_length::<f64>(&[], &[]).ok(), Some(0));
    match batch_length(&[1.0], &[3.0, 4.0]) {
        Err(Error::InvalidInput(m)) => assert_eq!(m, "value arrays must be the same length"),
        other => panic!("unexpected result {other:?}"),
    }
}

#[test]
fn clone_fallback_fluid_only_when_commas() {
    assert_eq!(clone_fallback_fluid("R32,R125"), Some("R32&R125".to_string()));
    assert_eq!(clone_fallback_fluid("R32&R125"), None);
    assert_eq!(clone_fallback_fluid(""), None);
}
