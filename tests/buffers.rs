use coolprop::{
    buffer_saturated, critical_points_step, detect_filled_prefix, envelope_start, envelope_step,
    fluid_param_step, fraction_step, global_param_step, grow_or_stop, reshape_phase_compositions,
    spinodal_step, BufferStep, EnvelopeStart, EnvelopeStep, Error, FractionStep, BUFFER_CEILING,
    CRITICAL_POINTS_CEILING, CRITICAL_POINTS_START, ENVELOPE_DEFAULT_POINTS, SPINODAL_CEILING,
    SPINODAL_START,
};

fn engine_error(message: &str) -> Error {
    Error::CoolProp { code: 1, message: message.to_string() }
}

#[test]
fn buffer_saturated_detection() {
    let mut buf = vec![0i8; 4];
    buf[0] = b'a' as i8;
    buf[1] = 0;
    assert!(!buffer_saturated(&buf));
    let no_nul = vec![b'a' as i8, b'b' as i8, b'c' as i8];
    assert!(buffer_saturated(&no_nul));
    let end_nul = vec![b'x' as i8, b'y' as i8, 0];
    assert!(buffer_saturated(&end_nul));
}

#[test]
fn buffer_saturated_empty_buffer() {
    assert!(buffer_saturated(&[]));
    assert!(buffer_saturated(&[0]));
}

#[test]
fn reshape_phase_compositions_handles_layouts() {
    let flat_point_major = vec![
        0.2, 0.3, 0.5, // point 0
        0.1, 0.6, 0.3, // point 1
    ];
    let reshaped = reshape_phase_compositions(&flat_point_major, 2, 3);
    assert_eq!(reshaped.len(), 3);
    assert_eq!(reshaped[0], vec![0.2, 0.1]);
    assert_eq!(reshaped[1], vec![0.3, 0.6]);
    assert_eq!(reshaped[2], vec![0.5, 0.3]);
}

#[test]
fn reshape_phase_compositions_empty_dimensions() {
    let flat = vec![1.0, 2.0];
    assert!(reshape_phase_compositions(&flat, 0, 2).is_empty());
    assert!(reshape_phase_compositions(&flat, 2, 0).is_empty());
}

fn any_finite(a: &[f64], b: &[f64], c: &[f64]) -> Vec<bool> {
    let len = a.len().min(b.len()).min(c.len());
    (0..len).map(|i| a[i].is_finite() || b[i].is_finite() || c[i].is_finite()).collect()
}

#[test]
fn detect_filled_prefix_counts_any_finite() {
    let a = [f64::NAN, 1.0, f64::NAN, f64::NAN];
    let b = [f64::NAN, f64::NAN, 2.0, f64::NAN];
    let c = [f64::NAN, f64::NAN, f64::NAN, 3.0];
    assert_eq!(detect_filled_prefix(&any_finite(&a, &b, &c)), 4);
    let a2 = [f64::NAN, f64::NAN];
    let b2 = [f64::NAN, f64::NAN];
    let c2 = [f64::NAN, f64::NAN];
    assert_eq!(detect_filled_prefix(&any_finite(&a2, &b2, &c2)), 0);
}

#[test]
fn detect_filled_prefix_skips_gaps() {
    assert_eq!(detect_filled_prefix(&[true, false, true, false, false]), 3);
    assert_eq!(detect_filled_prefix(&[]), 0);
}

#[test]
fn global_param_doubles_until_ceiling() {
    assert_eq!(global_param_step(256, 1), BufferStep::Done);
    assert_eq!(global_param_step(256, 0), BufferStep::Grow(512));
    assert_eq!(global_param_step(BUFFER_CEILING / 2, 0), BufferStep::Grow(BUFFER_CEILING));
    assert_eq!(global_param_step(BUFFER_CEILING, 0), BufferStep::Exhausted);
    let mut capacity = 256;
    let mut calls = 1;
    while let BufferStep::Grow(next) = global_param_step(capacity, 0) {
        capacity = next;
        calls += 1;
    }
    assert_eq!(capacity, BUFFER_CEILING);
    assert_eq!(calls, 13);
}

#[test]
fn grow_or_stop_respects_ceiling() {
    assert_eq!(grow_or_stop(3, false, 6), BufferStep::Grow(6));
    assert_eq!(grow_or_stop(4, false, 6), BufferStep::Exhausted);
    assert_eq!(grow_or_stop(4, true, 6), BufferStep::Done);
    assert_eq!(grow_or_stop(0, false, 6), BufferStep::Grow(2));
}

#[test]
fn fluid_param_step_grows_saturated_buffers() {
    let fitted = vec![b'o' as i8, b'k' as i8, 0, 0];
    assert_eq!(fluid_param_step(&fitted), BufferStep::Done);
    let full = vec![b'a' as i8; 1024];
    assert_eq!(fluid_param_step(&full), BufferStep::Grow(2048));
}

#[test]
fn fraction_step_keeps_reported_count() {
    assert!(matches!(fraction_step(4, Ok(2), "mole fractions"), FractionStep::Done(2)));
    assert!(matches!(fraction_step(4, Ok(-3), "mole fractions"), FractionStep::Done(0)));
    assert!(matches!(fraction_step(2, Ok(3), "mole fractions"), FractionStep::Grow(4)));
    assert!(matches!(fraction_step(2, Ok(9), "mole fractions"), FractionStep::Grow(9)));
}

#[test]
fn fraction_step_reacts_to_buffer_errors() {
    let grown = fraction_step(0, Err(engine_error("Length of array [1] is too small")), "mole fractions");
    assert!(matches!(grown, FractionStep::Grow(2)));
    let grown = fraction_step(3, Err(engine_error("output buffer too short")), "mole fractions");
    assert!(matches!(grown, FractionStep::Grow(6)));
    match fraction_step(3, Err(engine_error("bad fluid")), "mole fractions") {
        FractionStep::Fail(Error::CoolProp { code, message }) => {
            assert_eq!(code, 1);
            assert_eq!(message, "bad fluid");
        }
        other => panic!("unexpected step {other:?}"),
    }
}

#[test]
fn fraction_step_stops_at_ceiling() {
    match fraction_step(4, Ok(i64::MAX), "mass fractions") {
        FractionStep::Fail(Error::BufferLimit { context, limit }) => {
            assert_eq!(context, "mass fractions");
            assert_eq!(limit, BUFFER_CEILING);
        }
        other => panic!("unexpected step {other:?}"),
    }
}

#[test]
fn envelope_start_sizes() {
    assert!(matches!(envelope_start(Ok((0, 0))), EnvelopeStart::Empty));
    assert!(matches!(
        envelope_start(Ok((0, 2))),
        EnvelopeStart::Guess { points: ENVELOPE_DEFAULT_POINTS, components: 2 }
    ));
    assert!(matches!(
        envelope_start(Ok((10, -1))),
        EnvelopeStart::Guess { points: 10, components: 1 }
    ));
    assert!(matches!(
        envelope_start(Err(engine_error("length was zero"))),
        EnvelopeStart::Estimate
    ));
    assert!(matches!(
        envelope_start(Err(engine_error("no envelope built"))),
        EnvelopeStart::Fail(Error::CoolProp { .. })
    ));
    assert!(matches!(
        envelope_start(Ok((i64::MAX, 1))),
        EnvelopeStart::Fail(Error::BufferLimit { .. })
    ));
}

#[test]
fn envelope_step_grows_and_finishes() {
    assert!(matches!(
        envelope_step(10, 2, Ok((7, 2))),
        EnvelopeStep::Done { points: 7, components: 2 }
    ));
    assert!(matches!(
        envelope_step(10, 2, Ok((15, 3))),
        EnvelopeStep::Grow { points: 30, components: 3 }
    ));
    assert!(matches!(
        envelope_step(10, 2, Err(engine_error("buffer too small"))),
        EnvelopeStep::Grow { points: 20, components: 4 }
    ));
    assert!(matches!(
        envelope_step(10, 2, Err(engine_error("not built"))),
        EnvelopeStep::Fail(Error::CoolProp { .. })
    ));
}

#[test]
fn sample_steps_double_full_buffers_below_ceiling() {
    assert_eq!(spinodal_step(256, 256), BufferStep::Grow(512));
    assert_eq!(spinodal_step(100, 256), BufferStep::Done);
    assert_eq!(spinodal_step(0, 0), BufferStep::Grow(2));
    assert_eq!(critical_points_step(4, 4), BufferStep::Grow(8));
    assert_eq!(critical_points_step(1, 4), BufferStep::Done);
}

#[test]
fn sample_steps_fail_when_full_at_ceiling() {
    assert_eq!(spinodal_step(SPINODAL_CEILING, SPINODAL_CEILING), BufferStep::Exhausted);
    assert_eq!(spinodal_step(SPINODAL_CEILING - 1, SPINODAL_CEILING), BufferStep::Done);
    assert_eq!(
        critical_points_step(CRITICAL_POINTS_CEILING, CRITICAL_POINTS_CEILING),
        BufferStep::Exhausted
    );
    let mut capacity = CRITICAL_POINTS_START;
    let mut calls = 1;
    while let BufferStep::Grow(next) = critical_points_step(capacity, capacity) {
        capacity = next;
        calls += 1;
    }
    assert_eq!(capacity, CRITICAL_POINTS_CEILING);
    assert_eq!(calls, 5);
    let mut capacity = SPINODAL_START;
    let mut calls = 1;
    while let BufferStep::Grow(next) = spinodal_step(capacity, capacity) {
        capacity = next;
        calls += 1;
    }
    assert_eq!(capacity, SPINODAL_CEILING);
    assert_eq!(calls, 6);
}
