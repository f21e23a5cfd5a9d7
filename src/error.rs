use vstd::prelude::*;

verus! {

/// Errors that arise while working with the native engine.
#[derive(Debug, Clone)]
#[non_exhaustive]
pub enum Error {
    /// The engine returned a non-zero status with an accompanying message.
    CoolProp { code: i64, message: String },
    /// The engine left a message in its global error string.
    CoolPropGlobalError { message: String },
    /// The engine reported a phase code that has no label.
    UnknownPhaseCode(i64),
    /// The caller provided input that cannot be handed to the engine.
    InvalidInput(String),
    /// A computation returned a non-finite value.
    Computation { context: String, message: String },
    /// A global parameter could not be read.
    GlobalParameter { param: String, message: String },
    /// A string holds an interior NUL character, at the given character index.
    EmbeddedNul { label: String, position: usize },
    /// An output buffer would have to grow past its ceiling.
    BufferLimit { context: String, limit: usize },
}

/// The text of one decimal digit.
pub open spec fn digit_text(d: int) -> Seq<char> {
    if d == 0 {
        "0"@
    } else if d == 1 {
        "1"@
    } else if d == 2 {
        "2"@
    } else if d == 3 {
        "3"@
    } else if d == 4 {
        "4"@
    } else if d == 5 {
        "5"@
    } else if d == 6 {
        "6"@
    } else if d == 7 {
        "7"@
    } else if d == 8 {
        "8"@
    } else {
        "9"@
    }
}

/// The decimal digits of a natural number, most significant first, without leading zeros.
pub open spec fn digits_text(n: nat) -> Seq<char>
    decreases n,
{
    if n < 10 {
        digit_text(n as int)
    } else {
        digits_text(n / 10) + digit_text((n % 10) as int)
    }
}

/// The decimal text of an integer, with a leading `-` when it is negative.
pub open spec fn decimal_text(n: int) -> Seq<char> {
    if n < 0 {
        "-"@ + digits_text((-n) as nat)
    } else {
        digits_text(n as nat)
    }
}

/// The human-readable description of an error.
pub open spec fn error_text(e: Error) -> Seq<char> {
    match e {
        Error::CoolProp { code, message } => "CoolProp error "@ + decimal_text(code as int) + ": "@
            + message@,
        Error::CoolPropGlobalError { message } => "CoolProp global error: "@ + message@,
        Error::UnknownPhaseCode(code) => "phase code "@ + decimal_text(code as int)
            + " is not recognized by CoolProp"@,
        Error::InvalidInput(what) => "invalid input: "@ + what@,
        Error::Computation { context, message } => context@ + " failed: "@ + message@,
        Error::GlobalParameter { param, message } => "global parameter `"@ + param@
            + "` query failed: "@ + message@,
        Error::EmbeddedNul { label, .. } => "embedded NUL byte in "@ + label@,
        Error::BufferLimit { context, limit } => "buffer for "@ + context@ + " would exceed "@
            + decimal_text(limit as int) + " elements"@,
    }
}

fn digit_str(d: u128) -> (r: &'static str)
    requires
        d < 10,
    ensures
        r@ == digit_text(d as int),
{
    if d == 0 {
        "0"
    } else if d == 1 {
        "1"
    } else if d == 2 {
        "2"
    } else if d == 3 {
        "3"
    } else if d == 4 {
        "4"
    } else if d == 5 {
        "5"
    } else if d == 6 {
        "6"
    } else if d == 7 {
        "7"
    } else if d == 8 {
        "8"
    } else {
        "9"
    }
}

fn append_digits(out: &mut String, n: u128)
    ensures
        final(out)@ == old(out)@ + digits_text(n as nat),
    decreases n,
{
    let ghost before = out@;
    if n >= 10 {
        append_digits(out, n / 10);
    }
    out.append(digit_str(n % 10));
    proof {
        if n < 10 {
            assert(n % 10 == n);
        }
        assert(out@ =~= before + digits_text(n as nat));
    }
}

/// Appends the decimal text of `n` to `out`.
fn append_decimal(out: &mut String, n: i128)
    requires
        n > i128::MIN,
    ensures
        final(out)@ == old(out)@ + decimal_text(n as int),
{
    let ghost before = out@;
    if n < 0 {
        out.append("-");
        append_digits(out, (0 - n) as u128);
        assert(out@ =~= before + decimal_text(n as int));
    } else {
        append_digits(out, n as u128);
    }
}

impl Error {
    /// The human-readable description of this error.
    pub fn message(&self) -> (r: String)
        ensures
            r@ == error_text(*self),
    {
        match self {
            Error::CoolProp { code, message } => {
                let mut out = String::from_str("CoolProp error ");
                append_decimal(&mut out, *code as i128);
                out.append(": ");
                out.append(message.as_str());
                out
            },
            Error::CoolPropGlobalError { message } => {
                let mut out = String::from_str("CoolProp global error: ");
                out.append(message.as_str());
                out
            },
            Error::UnknownPhaseCode(code) => {
                let mut out = String::from_str("phase code ");
                append_decimal(&mut out, *code as i128);
                out.append(" is not recognized by CoolProp");
                out
            },
            Error::InvalidInput(what) => {
                let mut out = String::from_str("invalid input: ");
                out.append(what.as_str());
                out
            },
            Error::Computation { context, message } => {
                let mut out = String::from_str(context.as_str());
                out.append(" failed: ");
                out.append(message.as_str());
                out
            },
            Error::GlobalParameter { param, message } => {
                let mut out = String::from_str("global parameter `");
                out.append(param.as_str());
                out.append("` query failed: ");
                out.append(message.as_str());
                out
            },
            Error::EmbeddedNul { label, .. } => {
                let mut out = String::from_str("embedded NUL byte in ");
                out.append(label.as_str());
                out
            },
            Error::BufferLimit { context, limit } => {
                let mut out = String::from_str("buffer for ");
                out.append(context.as_str());
                out.append(" would exceed ");
                append_decimal(&mut out, *limit as i128);
                out.append(" elements");
                out
            },
        }
    }
}

} // verus!
