use vstd::prelude::*;

use crate::error::Error;
use crate::text::{contains_seq, contains_text};

verus! {

/// The largest number of elements that any growable output buffer may reach.
pub const BUFFER_CEILING: usize = 1048576;

/// The first capacity tried for a global parameter string.
pub const GLOBAL_PARAM_START: usize = 256;

/// The first capacity tried for a fluid parameter string.
pub const FLUID_PARAM_START: usize = 1024;

/// What a retry loop over a growable buffer does after one call.
#[derive(Clone, Copy, Debug, PartialEq, Eq, Structural)]
pub enum BufferStep {
    /// The buffer held the whole result.
    Done,
    /// Call again with a buffer of this many elements.
    Grow(usize),
    /// The buffer has reached its ceiling without holding the whole result.
    Exhausted,
}

/// The larger of two integers.
pub open spec fn max_int(a: int, b: int) -> int {
    if a >= b {
        a
    } else {
        b
    }
}

/// The step after a call that did or did not fit its result into `capacity` elements:
/// stop when it fit, double the buffer (an empty one counts as one element) while that
/// stays within `ceiling`, else give up.
pub open spec fn grow_step(capacity: int, fitted: bool, ceiling: int) -> BufferStep {
    let next = 2 * max_int(capacity, 1);
    if fitted {
        BufferStep::Done
    } else if capacity >= ceiling || next > ceiling {
        BufferStep::Exhausted
    } else {
        BufferStep::Grow(next as usize)
    }
}

/// Decides how a retry loop over a buffer of `capacity` elements goes on.
pub fn grow_or_stop(capacity: usize, fitted: bool, ceiling: usize) -> (r: BufferStep)
    ensures
        r == grow_step(capacity as int, fitted, ceiling as int),
{
    let base: usize = if capacity == 0 { 1 } else { capacity };
    if fitted {
        BufferStep::Done
    } else if capacity >= ceiling || base > ceiling / 2 {
        BufferStep::Exhausted
    } else {
        BufferStep::Grow(base * 2)
    }
}

/// The step of the global parameter loop after the engine returned `status` for a
/// buffer of `capacity` elements: status 1 means the value fit.
pub fn global_param_step(capacity: usize, status: i64) -> (r: BufferStep)
    ensures
        r == grow_step(capacity as int, status == 1, BUFFER_CEILING as int),
{
    grow_or_stop(capacity, status == 1, BUFFER_CEILING)
}

/// The step of the fluid parameter loop after the engine filled `buf`: the value fit
/// unless the buffer may have been cut short.
pub fn fluid_param_step(buf: &[i8]) -> (r: BufferStep)
    ensures
        r == grow_step(buf@.len() as int, !crate::text::saturated(buf@), BUFFER_CEILING as int),
{
    let fitted = !crate::text::buffer_saturated(buf);
    grow_or_stop(buf.len(), fitted, BUFFER_CEILING)
}

/// Growing never stalls and never passes the ceiling, so a retry loop that starts
/// within the ceiling ends after finitely many calls.
pub proof fn lemma_grow_step_progress(capacity: int, fitted: bool, ceiling: int)
    requires
        capacity >= 0,
        ceiling <= usize::MAX,
    ensures
        grow_step(capacity, fitted, ceiling) matches BufferStep::Grow(next) ==> capacity < next
            <= ceiling,
{
}

/// Whether an error says that a composition buffer was too small.
pub open spec fn composition_overflow_hint(e: Error) -> bool {
    contains_seq(crate::error::error_text(e), "buffer"@) || contains_seq(
        crate::error::error_text(e),
        "Length of array"@,
    )
}

/// What a composition query does after one call.
#[derive(Debug, Clone)]
pub enum FractionStep {
    /// The buffer held all the fractions: keep this many.
    Done(usize),
    /// Call again with a buffer of this many elements.
    Grow(usize),
    /// Stop with this error.
    Fail(Error),
}

/// Whether `r` grows the buffer to `next` elements, or, where that passes the ceiling,
/// fails with the ceiling error that names `what`.
pub open spec fn grows_to(r: FractionStep, next: int, what: Seq<char>) -> bool {
    if next > BUFFER_CEILING {
        r matches FractionStep::Fail(Error::BufferLimit { context, limit }) && context@ == what
            && limit == BUFFER_CEILING
    } else {
        r == FractionStep::Grow(next as usize)
    }
}

fn grow_fractions(next: i128, what: &str) -> (r: FractionStep)
    requires
        next >= 0,
    ensures
        grows_to(r, next as int, what@),
{
    if next > BUFFER_CEILING as i128 {
        FractionStep::Fail(Error::BufferLimit { context: String::from_str(what), limit: BUFFER_CEILING })
    } else {
        FractionStep::Grow(next as usize)
    }
}

/// Decides how a composition query goes on after a call with a buffer of `capacity`
/// elements. `outcome` is the number of components that the engine reported, or its
/// error; `what` names the query in the ceiling error.
///
/// A count that fits is kept. A larger count asks for a buffer of that size, or twice
/// the old one if that is larger. An error that says the buffer was too small doubles
/// the buffer; any other error ends the query.
pub fn fraction_step(capacity: usize, outcome: Result<i64, Error>, what: &str) -> (r: FractionStep)
    ensures
        match outcome {
            Ok(count) => {
                let actual = max_int(count as int, 0);
                if actual <= capacity {
                    r == FractionStep::Done(actual as usize)
                } else {
                    grows_to(r, max_int(actual, 2 * capacity), what@)
                }
            },
            Err(e) => if composition_overflow_hint(e) {
                grows_to(r, 2 * max_int(capacity as int, 1), what@)
            } else {
                r == FractionStep::Fail(e)
            },
        },
        r matches FractionStep::Grow(next) ==> capacity < next <= BUFFER_CEILING,
{
    match outcome {
        Ok(count) => {
            if count <= 0 {
                FractionStep::Done(0)
            } else if count as i128 <= capacity as i128 {
                FractionStep::Done(count as usize)
            } else {
                let doubled: i128 = 2 * (capacity as i128);
                let next: i128 = if count as i128 >= doubled { count as i128 } else { doubled };
                grow_fractions(next, what)
            }
        },
        Err(e) => {
            let text = e.message();
            if contains_text(text.as_str(), "buffer") || contains_text(text.as_str(), "Length of array") {
                let base: i128 = if capacity >= 1 { capacity as i128 } else { 1 };
                grow_fractions(2 * base, what)
            } else {
                FractionStep::Fail(e)
            }
        },
    }
}

/// The number of points tried for a phase envelope whose size the engine did not give.
pub const ENVELOPE_DEFAULT_POINTS: usize = 256;

/// Whether an error says that a phase-envelope buffer was too small.
pub open spec fn envelope_overflow_hint(e: Error) -> bool {
    contains_seq(crate::error::error_text(e), "length"@) || contains_seq(
        crate::error::error_text(e),
        "buffer"@,
    )
}

fn says_envelope_overflow(e: &Error) -> (r: bool)
    ensures
        r == envelope_overflow_hint(*e),
{
    let text = e.message();
    contains_text(text.as_str(), "length") || contains_text(text.as_str(), "buffer")
}

/// How the retrieval of a phase envelope begins, after the engine was asked for its size.
#[derive(Debug, Clone)]
pub enum EnvelopeStart {
    /// Try buffers of this many points and components.
    Guess { points: usize, components: usize },
    /// The envelope has no points and no components.
    Empty,
    /// The size is unknown: try `ENVELOPE_DEFAULT_POINTS` points and one slot for each
    /// component that the fluid list names.
    Estimate,
    /// Stop with this error.
    Fail(Error),
}

/// Whether `e` is the ceiling error of a phase envelope.
pub open spec fn envelope_limit(e: Error) -> bool {
    e matches Error::BufferLimit { context, limit } && context@ == "phase envelope"@ && limit
        == BUFFER_CEILING
}

fn envelope_limit_error() -> (e: Error)
    ensures
        envelope_limit(e),
{
    Error::BufferLimit { context: String::from_str("phase envelope"), limit: BUFFER_CEILING }
}

/// Decides how to begin reading a phase envelope from the answer to the size query: the
/// number of points and of components, or an error.
pub fn envelope_start(query: Result<(i64, i64), Error>) -> (r: EnvelopeStart)
    ensures
        match query {
            Ok((len, comps)) => {
                let p = max_int(len as int, 0);
                let k = max_int(comps as int, 0);
                if p > BUFFER_CEILING || k > BUFFER_CEILING {
                    r matches EnvelopeStart::Fail(e) && envelope_limit(e)
                } else if p == 0 && k == 0 {
                    r is Empty
                } else {
                    r == EnvelopeStart::Guess {
                        points: if p == 0 { ENVELOPE_DEFAULT_POINTS } else { p as usize },
                        components: if k == 0 { 1 } else { k as usize },
                    }
                }
            },
            Err(e) => if envelope_overflow_hint(e) {
                r is Estimate
            } else {
                r == EnvelopeStart::Fail(e)
            },
        },
{
    match query {
        Ok((len, comps)) => {
            let p: i64 = if len > 0 { len } else { 0 };
            let k: i64 = if comps > 0 { comps } else { 0 };
            if p > BUFFER_CEILING as i64 || k > BUFFER_CEILING as i64 {
                EnvelopeStart::Fail(envelope_limit_error())
            } else if p == 0 && k == 0 {
                EnvelopeStart::Empty
            } else {
                EnvelopeStart::Guess {
                    points: if p == 0 { ENVELOPE_DEFAULT_POINTS } else { p as usize },
                    components: if k == 0 { 1 } else { k as usize },
                }
            }
        },
        Err(e) => {
            if says_envelope_overflow(&e) {
                EnvelopeStart::Estimate
            } else {
                EnvelopeStart::Fail(e)
            }
        },
    }
}

/// What the phase-envelope loop does after one call.
#[derive(Debug, Clone)]
pub enum EnvelopeStep {
    /// The buffers held the whole envelope, of this many points and components.
    Done { points: usize, components: usize },
    /// Call again with buffers of this many points and components.
    Grow { points: usize, components: usize },
    /// Stop with this error.
    Fail(Error),
}

/// Whether `r` grows the envelope buffers to the given sizes, or, where one of them
/// passes the ceiling, fails with the ceiling error.
pub open spec fn envelope_grows_to(r: EnvelopeStep, points: int, components: int) -> bool {
    if points > BUFFER_CEILING || components > BUFFER_CEILING {
        r matches EnvelopeStep::Fail(e) && envelope_limit(e)
    } else {
        r == EnvelopeStep::Grow { points: points as usize, components: components as usize }
    }
}

fn grow_envelope(points: i128, components: i128) -> (r: EnvelopeStep)
    requires
        points >= 0,
        components >= 0,
    ensures
        envelope_grows_to(r, points as int, components as int),
{
    if points > BUFFER_CEILING as i128 || components > BUFFER_CEILING as i128 {
        EnvelopeStep::Fail(envelope_limit_error())
    } else {
        EnvelopeStep::Grow { points: points as usize, components: components as usize }
    }
}

/// Decides how the phase-envelope loop goes on after a call with buffers of `points`
/// points and `components` components. `outcome` is the size that the engine reported,
/// or its error.
///
/// A reported size that fits is kept. A larger one doubles the points (from the larger
/// of the two counts) and takes the larger component count. An error that says a buffer
/// was too small doubles both; any other error ends the loop.
pub fn envelope_step(points: usize, components: usize, outcome: Result<(i64, i64), Error>) -> (r:
    EnvelopeStep)
    ensures
        match outcome {
            Ok((len, comps)) => {
                let ap = max_int(len as int, 0);
                let ak = max_int(comps as int, 0);
                if ap > points || ak > components {
                    envelope_grows_to(
                        r,
                        2 * max_int(max_int(points as int, ap), 1),
                        max_int(max_int(components as int, ak), 1),
                    )
                } else {
                    r == EnvelopeStep::Done { points: ap as usize, components: ak as usize }
                }
            },
            Err(e) => if envelope_overflow_hint(e) {
                envelope_grows_to(
                    r,
                    2 * max_int(points as int, 1),
                    2 * max_int(components as int, 1),
                )
            } else {
                r == EnvelopeStep::Fail(e)
            },
        },
        r matches EnvelopeStep::Grow { points: p, components: k } ==> points < p <= BUFFER_CEILING
            && components <= k <= BUFFER_CEILING,
{
    match outcome {
        Ok((len, comps)) => {
            let ap: i128 = if len > 0 { len as i128 } else { 0 };
            let ak: i128 = if comps > 0 { comps as i128 } else { 0 };
            if ap > points as i128 || ak > components as i128 {
                let p: i128 = if points as i128 >= ap { points as i128 } else { ap };
                let k: i128 = if components as i128 >= ak { components as i128 } else { ak };
                grow_envelope(2 * (if p >= 1 { p } else { 1 }), if k >= 1 { k } else { 1 })
            } else {
                EnvelopeStep::Done { points: ap as usize, components: ak as usize }
            }
        },
        Err(e) => {
            if says_envelope_overflow(&e) {
                let p: i128 = if points >= 1 { points as i128 } else { 1 };
                let k: i128 = if components >= 1 { components as i128 } else { 1 };
                grow_envelope(2 * p, 2 * k)
            } else {
                EnvelopeStep::Fail(e)
            }
        },
    }
}

/// Splits a point-major composition buffer, where the fractions of each point lie side
/// by side, into one row per component holding its fraction at every point. With no
/// points or no components there are no rows.
pub fn reshape_phase_compositions<T: Copy>(flat: &[T], points: usize, components: usize) -> (r: Vec<
    Vec<T>>)
    requires
        points * components <= flat@.len(),
    ensures
        points == 0 || components == 0 ==> r@.len() == 0,
        points > 0 && components > 0 ==> {
            &&& r@.len() == components
            &&& forall|c: int| 0 <= c < components ==> (#[trigger] r@[c])@.len() == points
            &&& forall|c: int, p: int|
                0 <= c < components && 0 <= p < points ==> #[trigger] r@[c]@[p] == flat@[p
                    * components + c]
        },
{
    let flat_len = flat.len();
    let mut rows: Vec<Vec<T>> = Vec::new();
    if points == 0 || components == 0 {
        return rows;
    }
    let mut c: usize = 0;
    while c < components
        invariant
            flat_len == flat@.len(),
            points * components <= flat@.len(),
            points > 0,
            c <= components,
            rows@.len() == c,
            forall|i: int| 0 <= i < c ==> (#[trigger] rows@[i])@.len() == points,
            forall|i: int, p: int|
                0 <= i < c && 0 <= p < points ==> #[trigger] rows@[i]@[p] == flat@[p * components
                    + i],
        decreases components - c,
    {
        let mut row: Vec<T> = Vec::new();
        let mut p: usize = 0;
        while p < points
            invariant
                flat_len == flat@.len(),
                points * components <= flat@.len(),
                c < components,
                p <= points,
                row@.len() == p,
                forall|q: int| 0 <= q < p ==> row@[q] == flat@[q * components + c],
            decreases points - p,
        {
            proof {
                assert(p * components + c < points * components) by (nonlinear_arith)
                    requires
                        p < points,
                        c < components,
                ;
                assert(p * components + c < flat_len);
            }
            row.push(flat[p * components + c]);
            p = p + 1;
        }
        rows.push(row);
        c = c + 1;
    }
    rows
}

/// The index just past the last marked element of `b`, or zero if none is marked.
pub open spec fn filled_prefix(b: Seq<bool>) -> nat
    decreases b.len(),
{
    if b.len() == 0 {
        0
    } else if b.last() {
        b.len()
    } else {
        filled_prefix(b.drop_last())
    }
}

/// The length of the part of a sample buffer that the engine filled: the index just past
/// the last entry marked as holding data, or zero if none is.
pub fn detect_filled_prefix(filled: &[bool]) -> (r: usize)
    ensures
        r == filled_prefix(filled@),
{
    let mut last: usize = 0;
    let mut i: usize = 0;
    while i < filled.len()
        invariant
            i <= filled@.len(),
            last == filled_prefix(filled@.take(i as int)),
        decreases filled.len() - i,
    {
        assert(filled@.take(i + 1).drop_last() =~= filled@.take(i as int));
        if filled[i] {
            last = i + 1;
        }
        i = i + 1;
    }
    assert(filled@.take(filled@.len() as int) =~= filled@);
    last
}

/// The first capacity tried for spinodal data.
pub const SPINODAL_START: usize = 256;

/// The largest capacity tried for spinodal data; a buffer still full there is an error.
pub const SPINODAL_CEILING: usize = 8192;

/// The first capacity tried for critical points.
pub const CRITICAL_POINTS_START: usize = 4;

/// The largest capacity tried for critical points; a buffer still full there is an error.
pub const CRITICAL_POINTS_CEILING: usize = 64;

/// The step after the engine wrote the first `filled` entries of a sample buffer of
/// `capacity` entries: a buffer with room left held every sample; a full one is doubled
/// (an empty one counts as one element) while it is below `ceiling`, and is exhausted
/// at the ceiling.
pub open spec fn sample_step_spec(filled: int, capacity: int, ceiling: int) -> BufferStep {
    if filled < capacity {
        BufferStep::Done
    } else if capacity < ceiling {
        BufferStep::Grow((2 * max_int(capacity, 1)) as usize)
    } else {
        BufferStep::Exhausted
    }
}

fn sample_step(filled: usize, capacity: usize, ceiling: usize) -> (r: BufferStep)
    requires
        ceiling <= BUFFER_CEILING,
    ensures
        r == sample_step_spec(filled as int, capacity as int, ceiling as int),
{
    if filled < capacity {
        BufferStep::Done
    } else if capacity < ceiling {
        BufferStep::Grow(if capacity == 0 { 2 } else { capacity * 2 })
    } else {
        BufferStep::Exhausted
    }
}

/// How the spinodal loop goes on after the engine filled `filled` of `capacity` samples.
pub fn spinodal_step(filled: usize, capacity: usize) -> (r: BufferStep)
    ensures
        filled < capacity ==> r == BufferStep::Done,
        filled >= capacity && capacity < SPINODAL_CEILING ==> r == BufferStep::Grow(
            (2 * max_int(capacity as int, 1)) as usize,
        ),
        filled >= capacity && capacity >= SPINODAL_CEILING ==> r == BufferStep::Exhausted,
        r matches BufferStep::Grow(next) ==> capacity < next <= 2 * SPINODAL_CEILING,
{
    sample_step(filled, capacity, SPINODAL_CEILING)
}

/// How the critical-point loop goes on after the engine filled `filled` of `capacity`
/// entries.
pub fn critical_points_step(filled: usize, capacity: usize) -> (r: BufferStep)
    ensures
        filled < capacity ==> r == BufferStep::Done,
        filled >= capacity && capacity < CRITICAL_POINTS_CEILING ==> r == BufferStep::Grow(
            (2 * max_int(capacity as int, 1)) as usize,
        ),
        filled >= capacity && capacity >= CRITICAL_POINTS_CEILING ==> r == BufferStep::Exhausted,
        r matches BufferStep::Grow(next) ==> capacity < next <= 2 * CRITICAL_POINTS_CEILING,
{
    sample_step(filled, capacity, CRITICAL_POINTS_CEILING)
}

} // verus!
