use vstd::prelude::*;
use vstd::utf8::{decode_utf8, valid_utf8};

use crate::error::Error;

verus! {

/// Whether a text holds the NUL character.
pub open spec fn has_nul(s: Seq<char>) -> bool {
    exists|i: int| 0 <= i < s.len() && s[i] == '\0'
}

/// The characters of `s`, one per element.
fn chars_of(s: &str) -> (r: Vec<char>)
    ensures
        r@ == s@,
{
    let n = s.unicode_len();
    let mut out: Vec<char> = Vec::new();
    let mut i: usize = 0;
    while i < n
        invariant
            n == s@.len(),
            i <= n,
            out@ == s@.take(i as int),
        decreases n - i,
    {
        out.push(s.get_char(i));
        i = i + 1;
        assert(out@ =~= s@.take(i as int));
    }
    assert(s@.take(n as int) =~= s@);
    out
}

/// The index of the first NUL character of `s`, if it has one.
pub fn first_nul(s: &str) -> (r: Option<usize>)
    ensures
        r is None <==> !has_nul(s@),
        r matches Some(i) ==> i < s@.len() && s@[i as int] == '\0' && forall|j: int|
            0 <= j < i ==> s@[j] != '\0',
{
    let cs = chars_of(s);
    let mut i: usize = 0;
    while i < cs.len()
        invariant
            cs@ == s@,
            i <= cs@.len(),
            forall|j: int| 0 <= j < i ==> s@[j] != '\0',
        decreases cs.len() - i,
    {
        if cs[i] == '\0' {
            return Some(i);
        }
        i = i + 1;
    }
    None
}

/// Checks that `s` can be handed to the engine as a C string: it must hold no NUL.
/// `label` names the argument in the error.
pub fn check_c_string(label: &str, s: &str) -> (r: Result<(), Error>)
    ensures
        r is Ok <==> !has_nul(s@),
        r matches Err(e) ==> e matches Error::EmbeddedNul { label: l, position } && l@ == label@
            && position < s@.len() && s@[position as int] == '\0' && forall|j: int|
            0 <= j < position ==> s@[j] != '\0',
{
    match first_nul(s) {
        None => Ok(()),
        Some(position) => Err(Error::EmbeddedNul { label: String::from_str(label), position }),
    }
}

/// Whether a filled output buffer may have been truncated: it has no NUL before its
/// last element, so the text either has no terminator or fills the buffer to the end.
pub open spec fn saturated(b: Seq<i8>) -> bool {
    !exists|i: int| 0 <= i < b.len() - 1 && b[i] == 0
}

/// Tells whether a text buffer that the engine filled may have been cut short.
pub fn buffer_saturated(buf: &[i8]) -> (r: bool)
    ensures
        r == saturated(buf@),
{
    let mut i: usize = 0;
    while i < buf.len()
        invariant
            i <= buf@.len(),
            forall|j: int| 0 <= j < i ==> buf@[j] != 0,
        decreases buf.len() - i,
    {
        if buf[i] == 0 {
            return i + 1 >= buf.len();
        }
        i = i + 1;
    }
    true
}

/// The index of the first zero of `b` at or after `i`, or the length of `b` if none.
pub open spec fn zero_from(b: Seq<i8>, i: int) -> int
    decreases b.len() - i,
{
    if i >= b.len() {
        b.len() as int
    } else if b[i] == 0 {
        i
    } else {
        zero_from(b, i + 1)
    }
}

/// The bytes of a NUL-terminated text held in `b`: those before its first zero.
pub open spec fn c_text_bytes(b: Seq<i8>) -> Seq<u8> {
    b.take(zero_from(b, 0)).map_values(|x: i8| x as u8)
}

/// What `String::from_utf8_lossy` makes of a byte sequence.
pub uninterp spec fn utf8_lossy(b: Seq<u8>) -> Seq<char>;

/// Relies on `String::from_utf8_lossy`: the result depends on the bytes alone, and
/// valid UTF-8 is decoded unchanged.
#[verifier::external_body]
fn lossy_utf8(bytes: &[u8]) -> (r: String)
    ensures
        r@ == utf8_lossy(bytes@),
        valid_utf8(bytes@) ==> r@ == decode_utf8(bytes@),
{
    String::from_utf8_lossy(bytes).into_owned()
}

/// Reads the NUL-terminated text that the engine wrote into `buf`.
pub fn c_buf_to_string(buf: &[i8]) -> (r: String)
    ensures
        r@ == utf8_lossy(c_text_bytes(buf@)),
        valid_utf8(c_text_bytes(buf@)) ==> r@ == decode_utf8(c_text_bytes(buf@)),
{
    let mut bytes: Vec<u8> = Vec::new();
    let mut i: usize = 0;
    while i < buf.len() && buf[i] != 0
        invariant
            i <= buf@.len(),
            zero_from(buf@, i as int) == zero_from(buf@, 0),
            forall|j: int| 0 <= j < i ==> buf@[j] != 0,
            bytes@ == buf@.take(i as int).map_values(|x: i8| x as u8),
        decreases buf.len() - i,
    {
        bytes.push(buf[i] as u8);
        i = i + 1;
        assert(bytes@ =~= buf@.take(i as int).map_values(|x: i8| x as u8));
    }
    assert(zero_from(buf@, i as int) == i);
    assert(bytes@ =~= c_text_bytes(buf@));
    lossy_utf8(bytes.as_slice())
}

/// Whether `needle` occurs in `hay` as a contiguous run of characters.
pub open spec fn contains_seq(hay: Seq<char>, needle: Seq<char>) -> bool {
    exists|i: int| 0 <= i <= hay.len() - needle.len() && #[trigger] hay.subrange(i, i + needle.len()) == needle
}

fn matches_at(hay: &Vec<char>, needle: &Vec<char>, at: usize) -> (r: bool)
    requires
        at + needle@.len() <= hay@.len(),
    ensures
        r == (hay@.subrange(at as int, at + needle@.len()) == needle@),
{
    let hay_len = hay.len();
    let mut k: usize = 0;
    while k < needle.len()
        invariant
            hay_len == hay@.len(),
            at + needle@.len() <= hay@.len(),
            k <= needle@.len(),
            forall|j: int| 0 <= j < k ==> hay@[at + j] == needle@[j],
        decreases needle.len() - k,
    {
        if hay[at + k] != needle[k] {
            assert(hay@.subrange(at as int, at + needle@.len())[k as int] != needle@[k as int]);
            return false;
        }
        k = k + 1;
    }
    assert(hay@.subrange(at as int, at + needle@.len()) =~= needle@);
    true
}

/// Tells whether `needle` occurs in `hay`.
pub fn contains_text(hay: &str, needle: &str) -> (r: bool)
    ensures
        r == contains_seq(hay@, needle@),
{
    let h = chars_of(hay);
    let n = chars_of(needle);
    if n.len() > h.len() {
        return false;
    }
    let last = h.len() - n.len();
    let mut at: usize = 0;
    loop
        invariant
            h@ == hay@,
            n@ == needle@,
            last == h@.len() - n@.len(),
            at <= last,
            forall|i: int| 0 <= i < at ==> #[trigger] hay@.subrange(i, i + needle@.len()) != needle@,
        decreases last - at,
    {
        if matches_at(&h, &n, at) {
            return true;
        }
        if at == last {
            return false;
        }
        at = at + 1;
    }
}

/// `s` with every comma replaced by an ampersand.
pub open spec fn commas_to_ampersands(s: Seq<char>) -> Seq<char> {
    s.map_values(|c: char| if c == ',' { '&' } else { c })
}

/// Rewrites a comma-separated component list into the ampersand-separated form that the
/// engine accepts for mixtures.
pub fn normalize_fluid_list(fluid: &str) -> (r: String)
    ensures
        r@ == commas_to_ampersands(fluid@),
{
    let n = fluid.unicode_len();
    let mut out = String::new();
    let mut start: usize = 0;
    let mut i: usize = 0;
    while i < n
        invariant
            n == fluid@.len(),
            start <= i <= n,
            out@ == commas_to_ampersands(fluid@.take(start as int)),
            forall|j: int| start <= j < i ==> fluid@[j] != ',',
        decreases n - i,
    {
        if fluid.get_char(i) == ',' {
            let piece = fluid.substring_char(start, i);
            out.append(piece);
            out.append("&");
            proof {
                reveal_strlit("&");
                assert(out@ =~= commas_to_ampersands(fluid@.take(i + 1)));
            }
            start = i + 1;
        }
        i = i + 1;
    }
    let piece = fluid.substring_char(start, n);
    out.append(piece);
    assert(out@ =~= commas_to_ampersands(fluid@));
    out
}

/// Whether a character is white space in Unicode's sense (the `White_Space` property).
pub open spec fn white_space(c: char) -> bool {
    let u = c as u32;
    (0x09 <= u <= 0x0D) || u == 0x20 || u == 0x85 || u == 0xA0 || u == 0x1680 || (0x2000 <= u
        <= 0x200A) || u == 0x2028 || u == 0x2029 || u == 0x202F || u == 0x205F || u == 0x3000
}

/// Tells whether `c` is white space, as `char::is_whitespace` does.
pub fn is_white_space(c: char) -> (r: bool)
    ensures
        r == white_space(c),
{
    let u = c as u32;
    (0x09 <= u && u <= 0x0D) || u == 0x20 || u == 0x85 || u == 0xA0 || u == 0x1680 || (0x2000 <= u
        && u <= 0x200A) || u == 0x2028 || u == 0x2029 || u == 0x202F || u == 0x205F || u == 0x3000
}

/// Reads a list of components separated by `&`, from left to right: the number of
/// segments seen so far that hold something besides white space, and whether the
/// segment being read already does.
pub open spec fn segment_scan(s: Seq<char>) -> (nat, bool)
    decreases s.len(),
{
    if s.len() == 0 {
        (0, false)
    } else {
        let (n, filled) = segment_scan(s.drop_last());
        let c = s.last();
        if c == '&' {
            (n, false)
        } else if white_space(c) || filled {
            (n, filled)
        } else {
            (n + 1, true)
        }
    }
}

/// The number of components that a `&`-separated list names, counting at least one.
pub open spec fn component_estimate(s: Seq<char>) -> nat {
    let n = segment_scan(s).0;
    if n == 0 {
        1
    } else {
        n
    }
}

/// Estimates how many components a `&`-separated fluid list holds: the segments that
/// are not blank, and never fewer than one.
pub fn component_count(names: &str) -> (r: usize)
    ensures
        r == component_estimate(names@),
{
    let cs = chars_of(names);
    let mut n: usize = 0;
    let mut filled = false;
    let mut i: usize = 0;
    while i < cs.len()
        invariant
            cs@ == names@,
            i <= cs@.len(),
            n <= i,
            segment_scan(names@.take(i as int)) == (n as nat, filled),
        decreases cs.len() - i,
    {
        let c = cs[i];
        assert(names@.take(i + 1).drop_last() =~= names@.take(i as int));
        if c == '&' {
            filled = false;
        } else if is_white_space(c) || filled {
        } else {
            n = n + 1;
            filled = true;
        }
        i = i + 1;
    }
    assert(names@.take(cs@.len() as int) =~= names@);
    if n == 0 {
        1
    } else {
        n
    }
}

} // verus!
