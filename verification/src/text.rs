//! Building diagnostic and command strings character by character.

use vstd::prelude::*;
use vstd::string::StringSliceAdditionalSpecFns;

verus! {

/// Appends one character to a string (`String::push`).
#[verifier::external_body]
pub(crate) fn push_char(s: &mut String, c: char)
    ensures
        final(s)@ == old(s)@.push(c),
{
    s.push(c);
}

/// Appends a string slice to a string (`String::push_str`).
#[verifier::external_body]
pub(crate) fn push_str(s: &mut String, t: &str)
    ensures
        final(s)@ == old(s)@ + t@,
{
    s.push_str(t);
}

/// What `String::from_utf8_lossy` makes of a byte sequence: valid UTF-8 is
/// decoded, every invalid sequence becomes U+FFFD.
pub uninterp spec fn utf8_lossy(bytes: Seq<u8>) -> Seq<char>;

/// Decodes bytes as UTF-8, replacing invalid sequences
/// (`String::from_utf8_lossy`). As std documents, valid UTF-8 comes back as
/// the characters it encodes.
#[verifier::external_body]
pub(crate) fn lossy_string(bytes: &[u8]) -> (r: String)
    ensures
        r@ == utf8_lossy(bytes@),
        vstd::utf8::valid_utf8(bytes@) ==> r@ == vstd::utf8::decode_utf8(bytes@),
{
    String::from_utf8_lossy(bytes).into_owned()
}

/// The UTF-8 text of bytes (`String::from_utf8`): `None` exactly when the
/// bytes are not valid UTF-8, and otherwise the characters they encode.
#[verifier::external_body]
pub(crate) fn utf8_string(bytes: &[u8]) -> (r: Option<String>)
    ensures
        r is Some <==> vstd::utf8::valid_utf8(bytes@),
        r is Some ==> r->Some_0@ == vstd::utf8::decode_utf8(bytes@),
{
    String::from_utf8(bytes.to_vec()).ok()
}

/// The UTF-8 encoding of a string slice (`str::as_bytes`, specified by vstd).
pub fn string_bytes(s: &str) -> (r: Vec<u8>)
    ensures
        r@ == s.spec_bytes(),
{
    let b = s.as_bytes();
    let mut out: Vec<u8> = Vec::new();
    for i in 0..b.len()
        invariant
            b@ == s.spec_bytes(),
            out@ == b@.take(i as int),
    {
        assert(b@.take(i as int + 1) == b@.take(i as int).push(b@[i as int]));
        out.push(b[i]);
    }
    assert(b@.take(b@.len() as int) =~= b@);
    out
}

/// A fresh vector holding the same bytes.
pub fn copy_bytes(v: &[u8]) -> (r: Vec<u8>)
    ensures
        r@ == v@,
{
    let mut out: Vec<u8> = Vec::new();
    for i in 0..v.len()
        invariant
            out@ == v@.take(i as int),
    {
        assert(v@.take(i as int + 1) == v@.take(i as int).push(v@[i as int]));
        out.push(v[i]);
    }
    assert(v@.take(v@.len() as int) =~= v@);
    out
}

/// The characters of a string slice, in order.
pub fn chars_of(t: &str) -> (r: Vec<char>)
    ensures
        r@ == t@,
{
    let mut out: Vec<char> = Vec::new();
    broadcast use vstd::string::axiom_spec_iter;

    for c in it: t.chars()
        invariant
            it.seq() == t@,
            out@ == it.seq().take(it.index() as int),
    {
        assert(it.seq().take(it.index() as int + 1) == it.seq().take(it.index() as int).push(c));
        out.push(c);
    }
    assert(t@.take(t@.len() as int) =~= t@);
    out
}

/// A string holding exactly the given characters.
pub fn string_from_chars(v: &Vec<char>) -> (r: String)
    ensures
        r@ == v@,
{
    let mut s = String::new();
    for i in 0..v.len()
        invariant
            s@ == v@.take(i as int),
    {
        assert(v@.take(i as int + 1) == v@.take(i as int).push(v@[i as int]));
        push_char(&mut s, v[i]);
    }
    assert(v@.take(v@.len() as int) =~= v@);
    s
}

/// The ASCII digit for a value below sixteen, lower-case letters past nine.
pub open spec fn hex_digit(d: nat) -> char {
    if d == 0 { '0' } else if d == 1 { '1' } else if d == 2 { '2' } else if d == 3 { '3' }
    else if d == 4 { '4' } else if d == 5 { '5' } else if d == 6 { '6' } else if d == 7 { '7' }
    else if d == 8 { '8' } else if d == 9 { '9' } else if d == 10 { 'a' } else if d == 11 { 'b' }
    else if d == 12 { 'c' } else if d == 13 { 'd' } else if d == 14 { 'e' } else { 'f' }
}

/// Decimal notation of a natural number, without leading zeros.
pub open spec fn decimal(n: nat) -> Seq<char>
    decreases n,
{
    if n < 10 {
        seq![hex_digit(n)]
    } else {
        decimal(n / 10).push(hex_digit(n % 10))
    }
}

/// Lower-case hexadecimal notation of a natural number, without leading zeros.
pub open spec fn hexadecimal(n: nat) -> Seq<char>
    decreases n,
{
    if n < 16 {
        seq![hex_digit(n)]
    } else {
        hexadecimal(n / 16).push(hex_digit(n % 16))
    }
}

fn digit_char(d: u64) -> (c: char)
    requires
        d < 16,
    ensures
        c == hex_digit(d as nat),
{
    if d == 0 { '0' } else if d == 1 { '1' } else if d == 2 { '2' } else if d == 3 { '3' }
    else if d == 4 { '4' } else if d == 5 { '5' } else if d == 6 { '6' } else if d == 7 { '7' }
    else if d == 8 { '8' } else if d == 9 { '9' } else if d == 10 { 'a' } else if d == 11 { 'b' }
    else if d == 12 { 'c' } else if d == 13 { 'd' } else if d == 14 { 'e' } else { 'f' }
}

/// Appends the decimal notation of `n`.
pub fn push_decimal(s: &mut String, n: u64)
    ensures
        final(s)@ == old(s)@ + decimal(n as nat),
    decreases n,
{
    if n >= 10 {
        push_decimal(s, n / 10);
    }
    push_char(s, digit_char(n % 10));
}

/// Decimal notation of an integer, with a leading `-` when negative.
pub open spec fn signed_decimal(n: int) -> Seq<char> {
    if n < 0 {
        seq!['-'] + decimal((-n) as nat)
    } else {
        decimal(n as nat)
    }
}

/// Appends the decimal notation of `n`, with a leading `-` when negative.
pub fn push_signed(s: &mut String, n: i64)
    ensures
        final(s)@ == old(s)@ + signed_decimal(n as int),
{
    if n < 0 {
        push_char(s, '-');
        let above: i64 = n + 1;
        let magnitude: u64 = ((-above) as u64) + 1;
        push_decimal(s, magnitude);
        assert(seq!['-'] + decimal((-n) as nat) == seq!['-'].add(decimal(magnitude as nat)));
    } else {
        push_decimal(s, n as u64);
    }
}

/// Appends the lower-case hexadecimal notation of `n`.
pub fn push_hex(s: &mut String, n: u64)
    ensures
        final(s)@ == old(s)@ + hexadecimal(n as nat),
    decreases n,
{
    if n >= 16 {
        push_hex(s, n / 16);
    }
    push_char(s, digit_char(n % 16));
}

/// Two lower-case hexadecimal digits per byte, most significant first.
pub open spec fn hex_bytes(b: Seq<u8>) -> Seq<char>
    decreases b.len(),
{
    if b.len() == 0 {
        seq![]
    } else {
        hex_bytes(b.drop_last()) + seq![
            hex_digit((b.last() / 16) as nat),
            hex_digit((b.last() % 16) as nat),
        ]
    }
}

/// Appends two lower-case hexadecimal digits for every byte.
pub fn push_hex_bytes(s: &mut String, b: &[u8])
    ensures
        final(s)@ == old(s)@ + hex_bytes(b@),
{
    let ghost start = s@;
    for i in 0..b.len()
        invariant
            s@ == start + hex_bytes(b@.take(i as int)),
    {
        let byte = b[i];
        assert(b@.take(i as int + 1).drop_last() == b@.take(i as int));
        push_char(s, digit_char((byte / 16) as u64));
        push_char(s, digit_char((byte % 16) as u64));
    }
    assert(b@.take(b@.len() as int) =~= b@);
}

} // verus!
