//! Wide (UTF-16) text as the facility reads and writes it: null-terminated
//! code units, stored as little-endian bytes in registry-style values.

use vstd::prelude::*;
use crate::status::Error;
use vstd::utf8::{char_is_scalar, char_u32_cast};

verus! {

/// The UTF-16 code units of one character.
pub open spec fn utf16_of_char(c: char) -> Seq<u16> {
    let v = c as u32;
    if v < 0x1_0000 {
        seq![v as u16]
    } else {
        seq![(0xD800 + (v - 0x1_0000) / 0x400) as u16, (0xDC00 + (v - 0x1_0000) % 0x400) as u16]
    }
}

/// The UTF-16 code units of a text.
pub open spec fn utf16_of(s: Seq<char>) -> Seq<u16>
    decreases s.len(),
{
    if s.len() == 0 {
        Seq::empty()
    } else {
        utf16_of_char(s[0]) + utf16_of(s.drop_first())
    }
}

/// `n` is where the text in `units` ends: at the first zero unit, or at the
/// end of the buffer when it holds none.
pub open spec fn is_nul_index(units: Seq<u16>, n: int) -> bool {
    &&& 0 <= n <= units.len()
    &&& forall|j: int| 0 <= j < n ==> units[j] != 0
    &&& n < units.len() ==> units[n] == 0
}

pub open spec fn nul_index(units: Seq<u16>) -> int {
    choose|n: int| is_nul_index(units, n)
}

/// The code units of a null-terminated wide string, without the terminator.
pub open spec fn wide_text(units: Seq<u16>) -> Seq<u16> {
    units.take(nul_index(units))
}

/// The outcome of decoding the text held in `units`: the string whose UTF-16
/// encoding is exactly the units before the terminator, or `Error::Decode`
/// exactly when no string has that encoding.
pub open spec fn decodes_wide(units: Seq<u16>, r: Result<String, Error>) -> bool {
    match r {
        Ok(s) => utf16_of(s@) == wide_text(units),
        Err(e) => e == Error::Decode && forall|t: Seq<char>| #[trigger] utf16_of(t) != wide_text(units),
    }
}

/// Little-endian bytes of a sequence of code units.
pub open spec fn le_bytes_of(units: Seq<u16>) -> Seq<u8> {
    Seq::new(
        2 * units.len(),
        |k: int|
            if k % 2 == 0 {
                (units[k / 2] % 256) as u8
            } else {
                (units[k / 2] / 256) as u8
            },
    )
}

/// Code units read from little-endian byte pairs; a trailing odd byte is not
/// part of any unit.
pub open spec fn units_of_le_bytes(bytes: Seq<u8>) -> Seq<u16> {
    Seq::new(bytes.len() / 2, |i: int| (bytes[2 * i] + 256 * bytes[2 * i + 1]) as u16)
}

/// A registry string value: the text's code units, a zero terminator, as
/// little-endian bytes.
pub open spec fn registry_string_of(s: Seq<char>) -> Seq<u8> {
    le_bytes_of(utf16_of(s).push(0))
}

/// Relies on `str::encode_utf16`: the UTF-16 code units of the text, in order.
#[verifier::external_body]
fn encode_utf16(s: &str) -> (r: Vec<u16>)
    ensures
        r@ == utf16_of(s@),
{
    s.encode_utf16().collect()
}

/// Relies on `String::from_utf16`: the string whose UTF-16 encoding is
/// `units`, or an error when `units` is not valid UTF-16.
#[verifier::external_body]
fn decode_utf16(units: &[u16]) -> (r: Option<String>)
    ensures
        match r {
            Some(s) => utf16_of(s@) == units@,
            None => forall|t: Seq<char>| #[trigger] utf16_of(t) != units@,
        },
{
    String::from_utf16(units).ok()
}

proof fn lemma_nul_index_unique(units: Seq<u16>, n: int)
    requires
        is_nul_index(units, n),
    ensures
        nul_index(units) == n,
{
    let m = nul_index(units);
    assert(is_nul_index(units, m));
    if m < n {
        assert(units[m] != 0);
    } else if n < m {
        assert(units[n] != 0);
    }
}

proof fn lemma_utf16_of_char_facts(c: char)
    ensures
        1 <= utf16_of_char(c).len() <= 2,
        (c as u32) < 0x1_0000 ==> utf16_of_char(c).len() == 1 && utf16_of_char(c)[0] as u32 == c as u32
            && !(0xD800 <= utf16_of_char(c)[0] <= 0xDFFF),
        (c as u32) >= 0x1_0000 ==> utf16_of_char(c).len() == 2 && 0xD800 <= utf16_of_char(c)[0] <= 0xDBFF
            && 0xDC00 <= utf16_of_char(c)[1] <= 0xDFFF,
{
    char_is_scalar(c);
    let v = c as u32;
    if v >= 0x1_0000 {
        assert((v - 0x1_0000) / 0x400 <= 0x3FF);
        assert((v - 0x1_0000) % 0x400 <= 0x3FF);
    }
}

proof fn lemma_utf16_of_char_injective(a: char, b: char)
    requires
        utf16_of_char(a) == utf16_of_char(b),
    ensures
        a == b,
{
    lemma_utf16_of_char_facts(a);
    lemma_utf16_of_char_facts(b);
    let va = a as u32;
    let vb = b as u32;
    if va >= 0x1_0000 && vb >= 0x1_0000 {
        let x = (va - 0x1_0000) as int;
        let y = (vb - 0x1_0000) as int;
        assert(utf16_of_char(a)[0] == utf16_of_char(b)[0]);
        assert(utf16_of_char(a)[1] == utf16_of_char(b)[1]);
        assert(x / 0x400 == y / 0x400);
        assert(x % 0x400 == y % 0x400);
        assert(x == 0x400 * (x / 0x400) + x % 0x400);
        assert(y == 0x400 * (y / 0x400) + y % 0x400);
    } else {
        assert(utf16_of_char(a)[0] == utf16_of_char(b)[0]);
    }
    assert(va == vb);
    char_u32_cast(a, va);
    char_u32_cast(b, vb);
}

/// Distinct texts have distinct UTF-16 encodings.
pub proof fn lemma_utf16_injective(a: Seq<char>, b: Seq<char>)
    requires
        utf16_of(a) == utf16_of(b),
    ensures
        a == b,
    decreases a.len(),
{
    if a.len() == 0 || b.len() == 0 {
        if a.len() > 0 {
            lemma_utf16_of_char_facts(a[0]);
        }
        if b.len() > 0 {
            lemma_utf16_of_char_facts(b[0]);
        }
        assert(a =~= b);
    } else {
        let ua = utf16_of_char(a[0]);
        let ub = utf16_of_char(b[0]);
        lemma_utf16_of_char_facts(a[0]);
        lemma_utf16_of_char_facts(b[0]);
        let whole = utf16_of(a);
        assert(whole == ua + utf16_of(a.drop_first()));
        assert(whole == ub + utf16_of(b.drop_first()));
        assert(whole[0] == ua[0] && whole[0] == ub[0]);
        if ua.len() == 2 && ub.len() == 2 {
            assert(whole[1] == ua[1] && whole[1] == ub[1]);
        }
        assert(ua.len() == ub.len());
        assert(ua =~= whole.take(ua.len() as int));
        assert(ub =~= whole.take(ub.len() as int));
        lemma_utf16_of_char_injective(a[0], b[0]);
        assert(utf16_of(a.drop_first()) =~= whole.skip(ua.len() as int));
        assert(utf16_of(b.drop_first()) =~= whole.skip(ub.len() as int));
        lemma_utf16_injective(a.drop_first(), b.drop_first());
        assert(a =~= seq![a[0]] + a.drop_first());
        assert(b =~= seq![b[0]] + b.drop_first());
    }
}

proof fn lemma_utf16_has_no_zero(text: Seq<char>)
    requires
        forall|i: int| 0 <= i < text.len() ==> (#[trigger] text[i] as u32) != 0,
    ensures
        forall|k: int| 0 <= k < utf16_of(text).len() ==> utf16_of(text)[k] != 0,
    decreases text.len(),
{
    if text.len() > 0 {
        lemma_utf16_of_char_facts(text[0]);
        assert((text[0] as u32) != 0);
        let rest = text.drop_first();
        assert forall|i: int| 0 <= i < rest.len() implies (#[trigger] rest[i] as u32) != 0 by {
            assert(rest[i] == text[i + 1]);
        }
        lemma_utf16_has_no_zero(rest);
        let head = utf16_of_char(text[0]);
        assert forall|k: int| 0 <= k < utf16_of(text).len() implies utf16_of(text)[k] != 0 by {
            if k >= head.len() {
                assert(utf16_of(text)[k] == utf16_of(rest)[k - head.len()]);
            }
        }
    }
}

proof fn lemma_le_round_trip(units: Seq<u16>, extra: Seq<u8>)
    ensures
        units_of_le_bytes(le_bytes_of(units) + extra).len() >= units.len(),
        forall|k: int| 0 <= k < units.len() ==> units_of_le_bytes(le_bytes_of(units) + extra)[k] == units[k],
{
    let bytes = le_bytes_of(units) + extra;
    assert forall|k: int| 0 <= k < units.len() implies units_of_le_bytes(bytes)[k] == units[k] by {
        let x = units[k] as int;
        assert(bytes[2 * k] == le_bytes_of(units)[2 * k]);
        assert(bytes[2 * k + 1] == le_bytes_of(units)[2 * k + 1]);
        assert((2 * k) % 2 == 0 && (2 * k) / 2 == k);
        assert((2 * k + 1) % 2 == 1 && (2 * k + 1) / 2 == k);
        assert(x == 256 * (x / 256) + x % 256);
    }
}

/// A registry string value read into a buffer of any capacity (its own size,
/// or larger with arbitrary bytes after the terminator) decodes to exactly the
/// stored text: nothing is cut off, and the bytes past the terminator do not
/// change the result.
pub proof fn lemma_registry_string_decodes_whole(text: Seq<char>, extra: Seq<u8>, r: Result<String, Error>)
    requires
        forall|i: int| 0 <= i < text.len() ==> (#[trigger] text[i] as u32) != 0,
        decodes_wide(units_of_le_bytes(registry_string_of(text) + extra), r),
    ensures
        r is Ok,
        r->Ok_0@ == text,
{
    let u = utf16_of(text);
    let units = units_of_le_bytes(registry_string_of(text) + extra);
    lemma_le_round_trip(u.push(0), extra);
    lemma_utf16_has_no_zero(text);
    assert forall|j: int| 0 <= j < u.len() implies units[j] != 0 by {
        assert(units[j] == u.push(0)[j]);
    }
    assert(units[u.len() as int] == u.push(0)[u.len() as int]);
    lemma_nul_index_unique(units, u.len() as int);
    assert(wide_text(units) =~= u) by {
        assert forall|j: int| 0 <= j < u.len() implies wide_text(units)[j] == u[j] by {
            assert(units[j] == u.push(0)[j]);
        }
    }
    match r {
        Ok(s) => {
            lemma_utf16_injective(s@, text);
        },
        Err(_) => {
            assert(utf16_of(text) != wide_text(units));
        },
    }
}

/// The text's code units followed by a zero terminator, as the facility
/// expects a string argument.
pub fn to_wide_nul(s: &str) -> (r: Vec<u16>)
    ensures
        r@ == utf16_of(s@).push(0),
{
    let mut units = encode_utf16(s);
    units.push(0);
    units
}

/// Decodes the null-terminated wide string held in `units` (a fixed-size
/// buffer that the facility filled). Units after the terminator are ignored.
pub fn wide_to_string(units: &[u16]) -> (r: Result<String, Error>)
    ensures
        decodes_wide(units@, r),
{
    let mut text: Vec<u16> = Vec::new();
    let mut i: usize = 0;
    while i < units.len() && units[i] != 0
        invariant
            0 <= i <= units.len(),
            text@ == units@.take(i as int),
            forall|j: int| 0 <= j < i ==> units@[j] != 0,
        decreases units.len() - i,
    {
        text.push(units[i]);
        i = i + 1;
    }
    proof {
        lemma_nul_index_unique(units@, i as int);
    }
    match decode_utf16(text.as_slice()) {
        Some(s) => Ok(s),
        None => Err(Error::Decode),
    }
}

/// Little-endian bytes of `units`, two per unit.
pub fn wide_to_le_bytes(units: &[u16]) -> (r: Vec<u8>)
    ensures
        r@ == le_bytes_of(units@),
{
    let mut bytes: Vec<u8> = Vec::new();
    let mut i: usize = 0;
    while i < units.len()
        invariant
            0 <= i <= units.len(),
            bytes@.len() == 2 * i,
            forall|k: int| 0 <= k < 2 * i ==> bytes@[k] == le_bytes_of(units@)[k],
        decreases units.len() - i,
    {
        let u = units[i];
        bytes.push((u % 256) as u8);
        bytes.push((u / 256) as u8);
        i = i + 1;
    }
    assert(bytes@ =~= le_bytes_of(units@));
    bytes
}

/// Code units read from consecutive little-endian byte pairs of `bytes`.
pub fn le_bytes_to_wide(bytes: &[u8]) -> (r: Vec<u16>)
    ensures
        r@ == units_of_le_bytes(bytes@),
{
    let mut units: Vec<u16> = Vec::new();
    let n = bytes.len() / 2;
    let mut i: usize = 0;
    while i < n
        invariant
            n == bytes.len() / 2,
            0 <= i <= n,
            units@.len() == i,
            forall|k: int| 0 <= k < i ==> units@[k] == units_of_le_bytes(bytes@)[k],
        decreases n - i,
    {
        let lo = bytes[2 * i] as u16;
        let hi = bytes[2 * i + 1] as u16;
        units.push(lo + 256 * hi);
        i = i + 1;
    }
    assert(units@ =~= units_of_le_bytes(bytes@));
    units
}

/// The bytes of a registry string value holding `value`: its UTF-16 code
/// units and a zero terminator, little-endian.
pub fn registry_string_bytes(value: &str) -> (r: Vec<u8>)
    ensures
        r@ == registry_string_of(value@),
{
    let units = to_wide_nul(value);
    wide_to_le_bytes(units.as_slice())
}

/// Decodes a registry string value (little-endian UTF-16, null-terminated)
/// read into a buffer of any capacity.
pub fn registry_bytes_to_string(bytes: &[u8]) -> (r: Result<String, Error>)
    ensures
        decodes_wide(units_of_le_bytes(bytes@), r),
{
    let units = le_bytes_to_wide(bytes);
    wide_to_string(units.as_slice())
}

} // verus!
