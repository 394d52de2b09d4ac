//! Human-readable renderings of raw address bytes, and the few std string
//! operations that vstd does not specify.
use vstd::prelude::*;
use vstd::utf8::{decode_utf8, valid_utf8};

verus! {

/// The lower-case hexadecimal digit for `d` (`d < 16`).
pub open spec fn hex_digit(d: u8) -> char {
    if d == 0 { '0' }
    else if d == 1 { '1' }
    else if d == 2 { '2' }
    else if d == 3 { '3' }
    else if d == 4 { '4' }
    else if d == 5 { '5' }
    else if d == 6 { '6' }
    else if d == 7 { '7' }
    else if d == 8 { '8' }
    else if d == 9 { '9' }
    else if d == 10 { 'a' }
    else if d == 11 { 'b' }
    else if d == 12 { 'c' }
    else if d == 13 { 'd' }
    else if d == 14 { 'e' }
    else { 'f' }
}

/// A byte in decimal, without leading zeros.
pub open spec fn decimal_text(b: u8) -> Seq<char> {
    if b < 10 {
        seq![hex_digit(b)]
    } else if b < 100 {
        seq![hex_digit(b / 10), hex_digit(b % 10)]
    } else {
        seq![hex_digit(b / 100), hex_digit((b / 10) % 10), hex_digit(b % 10)]
    }
}

/// A byte as exactly two lower-case hexadecimal digits.
pub open spec fn hex_pair_text(b: u8) -> Seq<char> {
    seq![hex_digit(b / 16), hex_digit(b % 16)]
}

/// Four bytes in dotted-decimal form, as in `1.2.3.4`.
pub open spec fn ipv4_text(a: Seq<u8>) -> Seq<char>
    recommends
        a.len() == 4,
{
    decimal_text(a[0]) + seq!['.'] + decimal_text(a[1]) + seq!['.'] + decimal_text(a[2])
        + seq!['.'] + decimal_text(a[3])
}

/// The first `2 * n` bytes as `n` colon-separated groups of four hex digits.
pub open spec fn hex_groups_text(a: Seq<u8>, n: nat) -> Seq<char>
    decreases n,
{
    if n == 0 {
        Seq::empty()
    } else {
        let prev = hex_groups_text(a, (n - 1) as nat);
        let group = hex_pair_text(a[2 * n - 2]) + hex_pair_text(a[2 * n - 1]);
        if n == 1 { group } else { prev + seq![':'] + group }
    }
}

/// Sixteen bytes as eight colon-separated groups of four hex digits, with
/// every leading zero kept.
pub open spec fn ipv6_text(a: Seq<u8>) -> Seq<char>
    recommends
        a.len() == 16,
{
    hex_groups_text(a, 8)
}

/// Relies on std's `String::push`: appends one character.
#[verifier::external_body]
fn push_char(s: &mut String, c: char)
    ensures
        final(s)@ == old(s)@.push(c),
{
    s.push(c);
}

/// Relies on std's `String::from_utf8`: succeeds exactly on well-formed UTF-8
/// and then holds the decoded characters.
#[verifier::external_body]
pub(crate) fn utf8_to_string(bytes: Vec<u8>) -> (r: Option<String>)
    ensures
        r is Some <==> valid_utf8(bytes@),
        r is Some ==> r->0@ == decode_utf8(bytes@),
{
    String::from_utf8(bytes).ok()
}

/// The character for a hex digit.
pub fn hex_digit_char(d: u8) -> (c: char)
    requires
        d < 16,
    ensures
        c == hex_digit(d),
{
    match d {
        0 => '0',
        1 => '1',
        2 => '2',
        3 => '3',
        4 => '4',
        5 => '5',
        6 => '6',
        7 => '7',
        8 => '8',
        9 => '9',
        10 => 'a',
        11 => 'b',
        12 => 'c',
        13 => 'd',
        14 => 'e',
        _ => 'f',
    }
}

/// Appends `b` in decimal.
pub fn push_decimal(s: &mut String, b: u8)
    ensures
        final(s)@ == old(s)@ + decimal_text(b),
{
    if b >= 100 {
        push_char(s, hex_digit_char(b / 100));
    }
    if b >= 10 {
        push_char(s, hex_digit_char((b / 10) % 10));
    }
    push_char(s, hex_digit_char(b % 10));
    assert(final(s)@ =~= old(s)@ + decimal_text(b));
}

/// Appends `b` as two hex digits.
pub fn push_hex_pair(s: &mut String, b: u8)
    ensures
        final(s)@ == old(s)@ + hex_pair_text(b),
{
    push_char(s, hex_digit_char(b / 16));
    push_char(s, hex_digit_char(b % 16));
    assert(final(s)@ =~= old(s)@ + hex_pair_text(b));
}

/// Renders four address bytes in dotted-decimal form.
pub fn format_ipv4(a: &[u8]) -> (r: String)
    requires
        a@.len() == 4,
    ensures
        r@ == ipv4_text(a@),
{
    let mut s = String::new();
    push_decimal(&mut s, a[0]);
    push_char(&mut s, '.');
    push_decimal(&mut s, a[1]);
    push_char(&mut s, '.');
    push_decimal(&mut s, a[2]);
    push_char(&mut s, '.');
    push_decimal(&mut s, a[3]);
    assert(s@ =~= ipv4_text(a@));
    s
}

/// Renders sixteen address bytes as eight colon-separated hex groups.
pub fn format_ipv6(a: &[u8]) -> (r: String)
    requires
        a@.len() == 16,
    ensures
        r@ == ipv6_text(a@),
{
    let mut s = String::new();
    let mut i: usize = 0;
    while i < 8
        invariant
            i <= 8,
            a@.len() == 16,
            s@ == hex_groups_text(a@, i as nat),
        decreases 8 - i,
    {
        if i > 0 {
            push_char(&mut s, ':');
        }
        push_hex_pair(&mut s, a[2 * i]);
        push_hex_pair(&mut s, a[2 * i + 1]);
        assert(s@ =~= hex_groups_text(a@, (i + 1) as nat));
        i = i + 1;
    }
    s
}

} // verus!
