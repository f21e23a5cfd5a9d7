use vstd::prelude::*;

use crate::error::Error;
use crate::text::{check_c_string, has_nul};

verus! {

/// A checked request to change one configuration entry of the engine.
pub struct ConfigRequest {
    /// The entry to change.
    pub key: String,
    /// The new value, for a text entry.
    pub text: Option<String>,
    /// How the change is named in error messages.
    pub context: String,
}

/// How a change of a configuration entry is named in error messages.
pub open spec fn config_context(setter: Seq<char>, key: Seq<char>) -> Seq<char> {
    setter + "("@ + key + ")"@
}

/// Whether `e` reports the first NUL in the text `s` of the argument named `label`.
pub open spec fn nul_error(e: Error, label: Seq<char>, s: Seq<char>) -> bool {
    e matches Error::EmbeddedNul { label: l, position } && l@ == label && position < s.len()
        && s[position as int] == '\0' && forall|j: int| 0 <= j < position ==> s[j] != '\0'
}

fn context_for(setter: &str, key: &str) -> (r: String)
    ensures
        r@ == config_context(setter@, key@),
{
    let mut c = String::from_str(setter);
    c.append("(");
    c.append(key);
    c.append(")");
    c
}

fn key_request(setter: &str, key: &str) -> (r: Result<ConfigRequest, Error>)
    ensures
        r is Ok <==> !has_nul(key@),
        r matches Ok(q) ==> q.key@ == key@ && q.text is None && q.context@ == config_context(
            setter@,
            key@,
        ),
        r matches Err(e) ==> nul_error(e, "config key"@, key@),
{
    match check_c_string("config key", key) {
        Err(e) => Err(e),
        Ok(()) => Ok(
            ConfigRequest { key: String::from_str(key), text: None, context: context_for(setter, key) },
        ),
    }
}

/// Checks a change of a text entry: neither the key nor the value may hold a NUL.
pub fn config_string_request(key: &str, value: &str) -> (r: Result<ConfigRequest, Error>)
    ensures
        r is Ok <==> !has_nul(key@) && !has_nul(value@),
        r matches Ok(q) ==> {
            &&& q.key@ == key@
            &&& q.text matches Some(t) && t@ == value@
            &&& q.context@ == config_context("set_config_string"@, key@)
        },
        r matches Err(e) ==> if has_nul(key@) {
            nul_error(e, "config key"@, key@)
        } else {
            nul_error(e, "config value"@, value@)
        },
{
    match key_request("set_config_string", key) {
        Err(e) => Err(e),
        Ok(q) => match check_c_string("config value", value) {
            Err(e) => Err(e),
            Ok(()) => Ok(ConfigRequest { key: q.key, text: Some(String::from_str(value)), context: q.context }),
        },
    }
}

/// Checks a change of a numeric entry: the key may not hold a NUL.
pub fn config_double_request(key: &str) -> (r: Result<ConfigRequest, Error>)
    ensures
        r is Ok <==> !has_nul(key@),
        r matches Ok(q) ==> q.key@ == key@ && q.text is None && q.context@ == config_context(
            "set_config_double"@,
            key@,
        ),
        r matches Err(e) ==> nul_error(e, "config key"@, key@),
{
    key_request("set_config_double", key)
}

/// Checks a change of a boolean entry: the key may not hold a NUL.
pub fn config_bool_request(key: &str) -> (r: Result<ConfigRequest, Error>)
    ensures
        r is Ok <==> !has_nul(key@),
        r matches Ok(q) ==> q.key@ == key@ && q.text is None && q.context@ == config_context(
            "set_config_bool"@,
            key@,
        ),
        r matches Err(e) ==> nul_error(e, "config key"@, key@),
{
    key_request("set_config_bool", key)
}

/// The request that points the engine at an alternative REFPROP installation.
pub fn set_refprop_path(path: &str) -> (r: Result<ConfigRequest, Error>)
    ensures
        r is Ok <==> !has_nul(path@),
        r matches Ok(q) ==> {
            &&& q.key@ == "ALTERNATIVE_REFPROP_PATH"@
            &&& q.text matches Some(t) && t@ == path@
            &&& q.context@ == config_context("set_config_string"@, "ALTERNATIVE_REFPROP_PATH"@)
        },
        r matches Err(e) ==> nul_error(e, "config value"@, path@),
{
    let key = "ALTERNATIVE_REFPROP_PATH";
    proof {
        reveal_strlit("ALTERNATIVE_REFPROP_PATH");
        assert(!has_nul(key@));
    }
    config_string_request(key, path)
}

/// Decides the outcome of a configuration change from the engine's global error string,
/// read after the change: empty means success, any text is the engine's complaint, and a
/// failed read is passed on.
pub fn config_call(after: Result<String, Error>, context: &str) -> (r: Result<(), Error>)
    ensures
        match after {
            Ok(s) => if s@.len() == 0 {
                r is Ok
            } else {
                r matches Err(Error::CoolPropGlobalError { message }) && message@ == context@
                    + ": "@ + s@
            },
            Err(e) => r == Err::<(), Error>(e),
        },
{
    match after {
        Ok(s) => {
            if s.unicode_len() == 0 {
                Ok(())
            } else {
                let mut message = String::from_str(context);
                message.append(": ");
                message.append(s.as_str());
                Err(Error::CoolPropGlobalError { message })
            }
        },
        Err(e) => Err(e),
    }
}

} // verus!
