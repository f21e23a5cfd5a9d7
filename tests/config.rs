use coolprop::{
    config_bool_request, config_call, config_double_request, config_string_request,
    set_refprop_path, Error,
};

#[test]
fn set_config_wrappers_reject_embedded_nul() {
    assert!(config_string_request("bad\0key", "value").is_err());
    assert!(config_double_request("bad\0key").is_err());
    assert!(config_bool_request("bad\0key").is_err());
}

#[test]
fn config_requests_carry_key_and_context() {
    let q = config_string_request("backend_path", "").expect("valid request");
    assert_eq!(q.key, "backend_path");
    assert_eq!(q.text.as_deref(), Some(""));
    assert_eq!(q.context, "set_config_string(backend_path)");
    let q = config_double_request("R_U").expect("valid request");
    assert_eq!(q.context, "set_config_double(R_U)");
    assert!(q.text.is_none());
    let q = config_bool_request("debug_mode").expect("valid request");
    assert_eq!(q.context, "set_config_bool(debug_mode)");
}

#[test]
fn config_string_request_names_the_bad_part() {
    match config_string_request("key", "va\0lue") {
        Err(Error::EmbeddedNul { label, position }) => {
            assert_eq!(label, "config value");
            assert_eq!(position, 2);
        }
        other => panic!("unexpected result {:?}", other.err()),
    }
    match config_string_request("k\0", "va\0lue") {
        Err(Error::EmbeddedNul { label, position }) => {
            assert_eq!(label, "config key");
            assert_eq!(position, 1);
        }
        other => panic!("unexpected result {:?}", other.err()),
    }
}

#[test]
fn set_refprop_path_targets_refprop_entry() {
    let q = set_refprop_path("/opt/refprop").expect("valid path");
    assert_eq!(q.key, "ALTERNATIVE_REFPROP_PATH");
    assert_eq!(q.text.as_deref(), Some("/opt/refprop"));
    assert_eq!(q.context, "set_config_string(ALTERNATIVE_REFPROP_PATH)");
    assert!(set_refprop_path("bad\0path").is_err());
}

#[test]
fn config_call_reads_global_error_string() {
    assert!(config_call(Ok(String::new()), "set_config_bool(x)").is_ok());
    match config_call(Ok("unknown key".to_string()), "set_config_bool(x)") {
        Err(Error::CoolPropGlobalError { message }) => {
            assert_eq!(message, "set_config_bool(x): unknown key")
        }
        other => panic!("unexpected result {other:?}"),
    }
    let failed = Error::GlobalParameter { param: "errstring".to_string(), message: "m".to_string() };
    assert!(matches!(
        config_call(Err(failed), "ctx"),
        Err(Error::GlobalParameter { .. })
    ));
}
