//! Verified text rendering: decimal numbers, fixed-width hexadecimal groups,
//! and the dotted / colon-separated address forms the report line uses.

use vstd::prelude::*;

use crate::parse::be16;

verus! {

/// The decimal digit character for `d` (0 to 9).
pub open spec fn spec_digit(d: int) -> char {
    if d == 0 { '0' }
    else if d == 1 { '1' }
    else if d == 2 { '2' }
    else if d == 3 { '3' }
    else if d == 4 { '4' }
    else if d == 5 { '5' }
    else if d == 6 { '6' }
    else if d == 7 { '7' }
    else if d == 8 { '8' }
    else { '9' }
}

/// The hexadecimal digit character for `d` (0 to 15), lower case.
pub open spec fn spec_hex_digit(d: int) -> char {
    if d < 10 { spec_digit(d) }
    else if d == 10 { 'a' }
    else if d == 11 { 'b' }
    else if d == 12 { 'c' }
    else if d == 13 { 'd' }
    else if d == 14 { 'e' }
    else { 'f' }
}

/// The decimal rendering of `n`, most significant digit first, no leading
/// zeroes (a single `'0'` for zero).
pub open spec fn spec_dec(n: nat) -> Seq<char>
    decreases n,
{
    if n < 10 {
        seq![spec_digit(n as int)]
    } else {
        spec_dec(n / 10).push(spec_digit((n % 10) as int))
    }
}

/// The four-digit hexadecimal rendering of a 16-bit value.
pub open spec fn spec_hex16(n: int) -> Seq<char> {
    seq![
        spec_hex_digit(n / 0x1000 % 16),
        spec_hex_digit(n / 0x100 % 16),
        spec_hex_digit(n / 0x10 % 16),
        spec_hex_digit(n % 16),
    ]
}

/// The dotted-decimal form of a four-byte address.
pub open spec fn spec_ipv4_addr(b: Seq<u8>) -> Seq<char> {
    spec_dec(b[0] as nat) + seq!['.'] + spec_dec(b[1] as nat) + seq!['.']
        + spec_dec(b[2] as nat) + seq!['.'] + spec_dec(b[3] as nat)
}

/// The full (uncompressed) colon-separated form of a sixteen-byte address:
/// eight four-digit hexadecimal groups.
pub open spec fn spec_ipv6_addr(b: Seq<u8>) -> Seq<char> {
    spec_hex16(be16(b, 0) as int) + seq![':'] + spec_hex16(be16(b, 2) as int) + seq![':']
        + spec_hex16(be16(b, 4) as int) + seq![':'] + spec_hex16(be16(b, 6) as int) + seq![':']
        + spec_hex16(be16(b, 8) as int) + seq![':'] + spec_hex16(be16(b, 10) as int) + seq![':']
        + spec_hex16(be16(b, 12) as int) + seq![':'] + spec_hex16(be16(b, 14) as int)
}

/// Relies on String::push: it appends the given character to the end of the
/// string and changes nothing else.
#[verifier::external_body]
pub(crate) fn push_char(s: &mut String, c: char)
    ensures
        final(s)@ == old(s)@.push(c),
{
    s.push(c);
}

/// The decimal digit character for `d`.
fn digit_char(d: u8) -> (c: char)
    requires
        d < 10,
    ensures
        c == spec_digit(d as int),
{
    if d == 0 { '0' }
    else if d == 1 { '1' }
    else if d == 2 { '2' }
    else if d == 3 { '3' }
    else if d == 4 { '4' }
    else if d == 5 { '5' }
    else if d == 6 { '6' }
    else if d == 7 { '7' }
    else if d == 8 { '8' }
    else { '9' }
}

/// The hexadecimal digit character for `d`.
fn hex_digit_char(d: u8) -> (c: char)
    requires
        d < 16,
    ensures
        c == spec_hex_digit(d as int),
{
    if d < 10 { digit_char(d) }
    else if d == 10 { 'a' }
    else if d == 11 { 'b' }
    else if d == 12 { 'c' }
    else if d == 13 { 'd' }
    else if d == 14 { 'e' }
    else { 'f' }
}

/// Append the decimal rendering of `n` to `s`.
pub fn push_dec(s: &mut String, n: u64)
    ensures
        final(s)@ == old(s)@ + spec_dec(n as nat),
    decreases n,
{
    if n < 10 {
        push_char(s, digit_char(n as u8));
        proof {
            assert(final(s)@ =~= old(s)@ + spec_dec(n as nat));
        }
    } else {
        push_dec(s, n / 10);
        push_char(s, digit_char((n % 10) as u8));
        proof {
            assert(final(s)@ =~= old(s)@ + spec_dec(n as nat));
        }
    }
}

/// Append the four-digit hexadecimal rendering of `n` to `s`.
pub fn push_hex16(s: &mut String, n: u16)
    ensures
        final(s)@ == old(s)@ + spec_hex16(n as int),
{
    push_char(s, hex_digit_char((n / 0x1000 % 16) as u8));
    push_char(s, hex_digit_char((n / 0x100 % 16) as u8));
    push_char(s, hex_digit_char((n / 0x10 % 16) as u8));
    push_char(s, hex_digit_char((n % 16) as u8));
    proof {
        assert(final(s)@ =~= old(s)@ + spec_hex16(n as int));
    }
}

/// Append the dotted-decimal form of a four-byte address to `s`.
pub fn push_ipv4_addr(s: &mut String, a: &Vec<u8>)
    requires
        a@.len() == 4,
    ensures
        final(s)@ == old(s)@ + spec_ipv4_addr(a@),
{
    push_dec(s, a[0] as u64);
    push_char(s, '.');
    push_dec(s, a[1] as u64);
    push_char(s, '.');
    push_dec(s, a[2] as u64);
    push_char(s, '.');
    push_dec(s, a[3] as u64);
    proof {
        assert(final(s)@ =~= old(s)@ + spec_ipv4_addr(a@));
    }
}

/// The big-endian 16-bit group at offset `i` of an address.
fn addr_group(a: &Vec<u8>, i: usize) -> (r: u16)
    requires
        a@.len() == 16,
        i <= 14,
    ensures
        r == be16(a@, i as int),
{
    (a[i] as u16) * 0x100 + (a[i + 1] as u16)
}

/// Append the full colon-separated form of a sixteen-byte address to `s`.
#[verifier::rlimit(60)]
pub fn push_ipv6_addr(s: &mut String, a: &Vec<u8>)
    requires
        a@.len() == 16,
    ensures
        final(s)@ == old(s)@ + spec_ipv6_addr(a@),
{
    push_hex16(s, addr_group(a, 0));
    push_char(s, ':');
    push_hex16(s, addr_group(a, 2));
    push_char(s, ':');
    push_hex16(s, addr_group(a, 4));
    push_char(s, ':');
    push_hex16(s, addr_group(a, 6));
    push_char(s, ':');
    push_hex16(s, addr_group(a, 8));
    push_char(s, ':');
    push_hex16(s, addr_group(a, 10));
    push_char(s, ':');
    push_hex16(s, addr_group(a, 12));
    push_char(s, ':');
    push_hex16(s, addr_group(a, 14));
    proof {
        assert(final(s)@ =~= old(s)@ + spec_ipv6_addr(a@));
    }
}

} // verus!
