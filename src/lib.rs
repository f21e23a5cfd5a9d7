//! Verified core of a binding layer around a native thermophysical-properties engine.
//!
//! The native engine is reached through a C calling surface. This crate holds the
//! logic that sits around those calls: the tables that name input pairs, parameters
//! and phases; the checks on strings handed across the boundary; the decisions of the
//! growable-buffer retry loops; and the typed errors made from status codes.

pub mod buffers;
pub mod config;
pub mod error;
pub mod indices;
pub mod state;
pub mod text;

pub use buffers::{
    critical_points_step, detect_filled_prefix, envelope_start, envelope_step, fluid_param_step,
    fraction_step, global_param_step, grow_or_stop, reshape_phase_compositions, spinodal_step,
    BufferStep, EnvelopeStart, EnvelopeStep, FractionStep, BUFFER_CEILING, CRITICAL_POINTS_CEILING,
    CRITICAL_POINTS_START, ENVELOPE_DEFAULT_POINTS, FLUID_PARAM_START, GLOBAL_PARAM_START,
    SPINODAL_CEILING, SPINODAL_START,
};
pub use config::{
    config_bool_request, config_call, config_double_request, config_string_request,
    set_refprop_path, ConfigRequest,
};
pub use error::Error;
pub use indices::{Indices, InputPair, Param, Phase, INPUT_PAIR_COUNT, PARAM_COUNT};
pub use state::{
    batch_length, check_status, clone_fallback_fluid, phase_from_code, saturation_token_for,
};
pub use text::{
    buffer_saturated, c_buf_to_string, check_c_string, component_count, contains_text, first_nul,
    is_white_space, normalize_fluid_list,
};
