use vstd::prelude::*;

use crate::error::Error;
use crate::indices::{phase_code, phase_name, saturation_text, Phase};
use crate::text::{c_buf_to_string, c_text_bytes, commas_to_ampersands, normalize_fluid_list, utf8_lossy};

verus! {

/// A message buffer with its last element forced to zero, so that the text in it ends.
pub open spec fn terminated(b: Seq<i8>) -> Seq<i8> {
    if b.len() == 0 {
        b
    } else {
        b.update(b.len() - 1, 0)
    }
}

/// Translates the status and message buffer that a native call filled in: zero is
/// success, any other code is an error that carries the code and the message.
pub fn check_status(code: i64, message_buf: &[i8]) -> (r: Result<(), Error>)
    ensures
        code == 0 <==> r is Ok,
        r matches Err(e) ==> e matches Error::CoolProp { code: c, message } && c == code
            && message@ == utf8_lossy(c_text_bytes(terminated(message_buf@))),
{
    if code == 0 {
        return Ok(());
    }
    let mut copy: Vec<i8> = Vec::new();
    let mut i: usize = 0;
    while i < message_buf.len()
        invariant
            i <= message_buf@.len(),
            copy@ == message_buf@.take(i as int),
        decreases message_buf.len() - i,
    {
        copy.push(message_buf[i]);
        i = i + 1;
        assert(copy@ =~= message_buf@.take(i as int));
    }
    assert(copy@ =~= message_buf@);
    if copy.len() > 0 {
        let last = copy.len() - 1;
        copy.set(last, 0);
    }
    assert(copy@ =~= terminated(message_buf@));
    let message = c_buf_to_string(copy.as_slice());
    Err(Error::CoolProp { code, message })
}

/// Maps the phase code that a state reports to its label.
pub fn phase_from_code(code: i64) -> (r: Result<Phase, Error>)
    ensures
        match r {
            Ok(p) => phase_code(p) == code,
            Err(e) => (code < 0 || code > 8) && e == Error::UnknownPhaseCode(code),
        },
{
    match Phase::from_code(code) {
        Some(p) => Ok(p),
        None => Err(Error::UnknownPhaseCode(code)),
    }
}

/// The saturation token of `phase`, or an error for a phase that has none. `purpose`
/// names what the token was wanted for in the error.
pub fn saturation_token_for(phase: Phase, purpose: &str) -> (r: Result<&'static str, Error>)
    ensures
        match r {
            Ok(t) => saturation_text(phase) == Some(t@),
            Err(e) => {
                &&& saturation_text(phase) is None
                &&& e matches Error::InvalidInput(m) && m@ == "phase "@ + phase_name(phase)
                    + " cannot be used for saturation "@ + purpose@
            },
        },
{
    match phase.saturation_token() {
        Some(t) => Ok(t),
        None => {
            let mut m = String::from_str("phase ");
            m.append(phase.name());
            m.append(" cannot be used for saturation ");
            m.append(purpose);
            Err(Error::InvalidInput(m))
        },
    }
}

/// The common length of the two input arrays of a batched update, or an error when they
/// differ.
pub fn batch_length<T>(value1: &[T], value2: &[T]) -> (r: Result<usize, Error>)
    ensures
        match r {
            Ok(n) => value1@.len() == value2@.len() && n == value1@.len(),
            Err(e) => {
                &&& value1@.len() != value2@.len()
                &&& e matches Error::InvalidInput(m) && m@ == "value arrays must be the same length"@
            },
        },
{
    if value1.len() == value2.len() {
        Ok(value1.len())
    } else {
        Err(Error::InvalidInput(String::from_str("value arrays must be the same length")))
    }
}

/// The fluid list to retry with when a state cannot be rebuilt from the list it reported:
/// the list with commas turned into ampersands, if that changes it.
pub fn clone_fallback_fluid(fluid: &str) -> (r: Option<String>)
    ensures
        r is None <==> commas_to_ampersands(fluid@) == fluid@,
        r matches Some(n) ==> n@ == commas_to_ampersands(fluid@),
{
    let normalized = normalize_fluid_list(fluid);
    let as_given = String::from_str(fluid);
    if normalized == as_given {
        None
    } else {
        Some(normalized)
    }
}

} // verus!
