//! The values a user gives on the command line: a device's vendor and product
//! identifiers, and a start address.

use vstd::prelude::*;
use vstd::string::StringSliceAdditionalSpecFns;

verus! {

/// Why a command-line value was refused.
#[derive(Clone, Copy, Debug, PartialEq, Eq, Structural)]
pub enum ParseError {
    /// `vendor:product` lacks its `:` delimiter.
    MissingColon,
    /// The vendor identifier is no hexadecimal `u16`.
    InvalidVendor,
    /// The product identifier is no hexadecimal `u16`.
    InvalidProduct,
    /// The address is neither a `0x`-prefixed hexadecimal nor a decimal `u32`.
    InvalidAddress,
}

/// The value of the ASCII digit `c` in base `radix` (10 or 16, letters in either case).
pub open spec fn digit_value(c: u8, radix: nat) -> Option<nat> {
    if 0x30 <= c <= 0x39 {
        Some((c - 0x30) as nat)
    } else if radix == 16 && 0x61 <= c <= 0x66 {
        Some((c - 0x61 + 10) as nat)
    } else if radix == 16 && 0x41 <= c <= 0x46 {
        Some((c - 0x41 + 10) as nat)
    } else {
        None
    }
}

/// Whether every byte of `s` is a digit in base `radix`.
pub open spec fn all_digits(s: Seq<u8>, radix: nat) -> bool {
    forall|i: int| 0 <= i < s.len() ==> (#[trigger] digit_value(s[i], radix)) is Some
}

/// The number the digits `s` spell in base `radix`.
pub open spec fn digits_value(s: Seq<u8>, radix: nat) -> nat
    decreases s.len(),
{
    if s.len() == 0 {
        0
    } else {
        digits_value(s.drop_last(), radix) * radix + match digit_value(s.last(), radix) {
            Some(d) => d,
            None => 0,
        }
    }
}

/// The digits of an unsigned number: a leading `+` is allowed.
pub open spec fn unsigned_digits(s: Seq<u8>) -> Seq<u8> {
    if s.len() > 0 && s[0] == 0x2b { s.drop_first() } else { s }
}

/// The unsigned number of at most `max` that `s` spells in base `radix`, as the
/// standard library's `from_str_radix` reads it: an optional `+`, then at least
/// one digit and nothing else.
pub open spec fn spec_parse_unsigned(s: Seq<u8>, radix: nat, max: nat) -> Option<nat> {
    let d = unsigned_digits(s);
    if d.len() == 0 || !all_digits(d, radix) || digits_value(d, radix) > max {
        None
    } else {
        Some(digits_value(d, radix))
    }
}

proof fn lemma_digits_grow(s: Seq<u8>, radix: nat, i: int, j: int)
    requires
        radix >= 1,
        0 <= i <= j <= s.len(),
    ensures
        digits_value(s.take(i), radix) <= digits_value(s.take(j), radix),
    decreases j - i,
{
    if i < j {
        lemma_digits_grow(s, radix, i, j - 1);
        assert(s.take(j).drop_last() =~= s.take(j - 1));
        let v = digits_value(s.take(j - 1), radix);
        assert(v <= v * radix) by (nonlinear_arith)
            requires
                radix >= 1,
        ;
    }
}

fn digit(c: u8, radix: u64) -> (r: Option<u64>)
    requires
        radix == 10 || radix == 16,
    ensures
        r is None <==> digit_value(c, radix as nat) is None,
        r matches Some(d) ==> digit_value(c, radix as nat) == Some(d as nat) && d < radix,
{
    if 0x30 <= c && c <= 0x39 {
        Some((c - 0x30) as u64)
    } else if radix == 16 && 0x61 <= c && c <= 0x66 {
        Some((c - 0x61 + 10) as u64)
    } else if radix == 16 && 0x41 <= c && c <= 0x46 {
        Some((c - 0x41 + 10) as u64)
    } else {
        None
    }
}

/// Reads `s` as an unsigned number of at most `max` in base `radix`.
pub fn parse_unsigned(s: &[u8], radix: u64, max: u64) -> (r: Option<u64>)
    requires
        radix == 10 || radix == 16,
    ensures
        r matches Some(v) ==> spec_parse_unsigned(s@, radix as nat, max as nat) == Some(v as nat),
        r is None <==> spec_parse_unsigned(s@, radix as nat, max as nat) is None,
{
    let ghost d = unsigned_digits(s@);
    let start: usize = if s.len() > 0 && s[0] == 0x2b { 1 } else { 0 };
    assert(d =~= s@.subrange(start as int, s@.len() as int));
    if start >= s.len() {
        return None;
    }
    let mut value: u64 = 0;
    let mut over = false;
    let mut i: usize = start;
    while i < s.len()
        invariant
            start <= i <= s@.len(),
            d == unsigned_digits(s@),
            d =~= s@.subrange(start as int, s@.len() as int),
            radix == 10 || radix == 16,
            forall|k: int| 0 <= k < i - start ==> (#[trigger] digit_value(d[k], radix as nat)) is Some,
            !over ==> value as nat == digits_value(d.take(i - start), radix as nat),
            !over ==> value <= max,
            over ==> digits_value(d.take(i - start), radix as nat) > max,
        decreases s@.len() - i,
    {
        let dig = match digit(s[i], radix) {
            Some(dig) => dig,
            None => {
                assert(d[i - start] == s@[i as int]);
                assert(digit_value(d[i - start], radix as nat) is None);
                assert(!all_digits(d, radix as nat));
                return None;
            },
        };
        proof {
            assert(d.take(i - start + 1).drop_last() =~= d.take(i - start));
            assert(d.take(i - start + 1).last() == s@[i as int]);
            assert(digits_value(d.take(i - start + 1), radix as nat)
                == digits_value(d.take(i - start), radix as nat) * radix as nat + dig as nat);
        }
        if !over {
            if dig > max {
                over = true;
            } else if value > (max - dig) / radix {
                assert(value as int * radix as int + dig as int > max as int) by (nonlinear_arith)
                    requires
                        value as int > (max as int - dig as int) / radix as int,
                        radix as int > 0,
                        dig as int <= max as int,
                ;
                over = true;
            } else {
                assert(value as int * radix as int + dig as int <= max as int) by (nonlinear_arith)
                    requires
                        value as int <= (max as int - dig as int) / radix as int,
                        radix as int > 0,
                        dig as int <= max as int,
                ;
                value = value * radix + dig;
            }
        } else {
            proof {
                lemma_digits_grow(d, radix as nat, i - start, i - start + 1);
            }
        }
        i = i + 1;
    }
    assert(d.take(d.len() as int) =~= d);
    if over {
        None
    } else {
        Some(value)
    }
}

/// Whether `s` starts with `0x` or `0X`.
pub open spec fn has_hex_prefix(s: Seq<u8>) -> bool {
    s.len() >= 2 && s[0] == 0x30 && (s[1] == 0x78 || s[1] == 0x58)
}

/// The start address `s` gives: hexadecimal after a `0x` prefix (in either
/// case), decimal otherwise.
pub open spec fn spec_parse_address(s: Seq<u8>) -> Option<nat> {
    if has_hex_prefix(s) {
        spec_parse_unsigned(s.subrange(2, s.len() as int), 16, u32::MAX as nat)
    } else {
        spec_parse_unsigned(s, 10, u32::MAX as nat)
    }
}

/// Parses a start address such as `0x0800C000` or `2048`.
pub fn parse_address(s: &str) -> (r: Result<u32, ParseError>)
    ensures
        r matches Ok(v) ==> spec_parse_address(s.spec_bytes()) == Some(v as nat),
        r is Err <==> spec_parse_address(s.spec_bytes()) is None,
        r matches Err(e) ==> e == ParseError::InvalidAddress,
{
    let b = s.as_bytes();
    let parsed = if b.len() >= 2 && b[0] == 0x30 && (b[1] == 0x78 || b[1] == 0x58) {
        let digits = slice_from(b, 2);
        parse_unsigned(digits, 16, 0xffff_ffff)
    } else {
        parse_unsigned(b, 10, 0xffff_ffff)
    };
    match parsed {
        Some(v) => Ok(v as u32),
        None => Err(ParseError::InvalidAddress),
    }
}

/// The bytes of `b` from `start` on.
fn slice_from(b: &[u8], start: usize) -> (r: &[u8])
    requires
        start <= b@.len(),
    ensures
        r@ == b@.subrange(start as int, b@.len() as int),
{
    let (_, tail) = b.split_at(start);
    tail
}

/// The position of the first `:` in `s`, if any.
pub open spec fn is_first_colon(s: Seq<u8>, i: int) -> bool {
    0 <= i < s.len() && s[i] == 0x3a && forall|j: int| 0 <= j < i ==> s[j] != 0x3a
}

/// The vendor and product identifiers `s` gives as `vendor:product`, both in
/// hexadecimal, split at the first `:`.
pub open spec fn spec_parse_vid_pid(s: Seq<u8>) -> Result<(nat, nat), ParseError> {
    if !(exists|i: int| is_first_colon(s, i)) {
        Err(ParseError::MissingColon)
    } else {
        let i = choose|i: int| is_first_colon(s, i);
        match spec_parse_unsigned(s.take(i), 16, u16::MAX as nat) {
            None => Err(ParseError::InvalidVendor),
            Some(vid) => match spec_parse_unsigned(s.subrange(i + 1, s.len() as int), 16, u16::MAX as nat) {
                None => Err(ParseError::InvalidProduct),
                Some(pid) => Ok((vid, pid)),
            },
        }
    }
}

/// Parses `vendor:product`, such as `0483:df11`.
pub fn parse_vid_pid(s: &str) -> (r: Result<(u16, u16), ParseError>)
    ensures
        r matches Ok((vid, pid)) ==> spec_parse_vid_pid(s.spec_bytes()) == Ok::<(nat, nat), ParseError>((vid as nat, pid as nat)),
        r matches Err(e) ==> spec_parse_vid_pid(s.spec_bytes()) == Err::<(nat, nat), ParseError>(e),
{
    let b = s.as_bytes();
    let mut i: usize = 0;
    while i < b.len() && b[i] != 0x3a
        invariant
            i <= b@.len(),
            forall|j: int| 0 <= j < i ==> b@[j] != 0x3a,
        decreases b@.len() - i,
    {
        i = i + 1;
    }
    if i == b.len() {
        assert(!(exists|k: int| is_first_colon(b@, k)));
        return Err(ParseError::MissingColon);
    }
    assert(is_first_colon(b@, i as int));
    proof {
        let c = choose|k: int| is_first_colon(b@, k);
        assert(c == i as int) by {
            if c < i { assert(b@[c] != 0x3a); }
            if c > i { assert(b@[i as int] != 0x3a); }
        }
    }
    let (head, rest) = b.split_at(i);
    assert(head@ =~= b@.take(i as int));
    let tail = slice_from(b, i + 1);
    let vid = match parse_unsigned(head, 16, 0xffff) {
        Some(v) => v as u16,
        None => { return Err(ParseError::InvalidVendor); },
    };
    let pid = match parse_unsigned(tail, 16, 0xffff) {
        Some(v) => v as u16,
        None => { return Err(ParseError::InvalidProduct); },
    };
    Ok((vid, pid))
}

} // verus!
