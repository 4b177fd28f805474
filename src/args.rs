use vstd::prelude::*;
use vstd::string::StringSliceAdditionalSpecFns;

verus! {

/// Value of an ASCII digit in the given radix (10 or 16), if it is one.
pub open spec fn digit_value(c: u8, radix: nat) -> Option<nat> {
    if 0x30 <= c <= 0x39 {
        Some((c - 0x30) as nat)
    } else if radix == 16 && 0x61 <= c <= 0x66 {
        Some((c - 0x61 + 10) as nat)
    } else if radix == 16 && 0x41 <= c <= 0x46 {
        Some((c - 0x41 + 10) as nat)
    } else {
        None
    }
}

/// Every byte is a digit of the radix.
pub open spec fn all_digits(s: Seq<u8>, radix: nat) -> bool {
    forall|i: int| 0 <= i < s.len() ==> (#[trigger] digit_value(s[i], radix)) is Some
}

/// The number that a run of digits spells, most significant first.
pub open spec fn digits_value(s: Seq<u8>, radix: nat) -> nat
    decreases s.len(),
{
    if s.len() == 0 {
        0
    } else {
        digits_value(s.drop_last(), radix) * radix + digit_value(s.last(), radix).unwrap_or(0)
    }
}

/// A non-empty run of digits whose value fits in 16 bits.
pub open spec fn parse_number(s: Seq<u8>, radix: nat) -> Option<u16> {
    if s.len() > 0 && all_digits(s, radix) && digits_value(s, radix) <= u16::MAX {
        Some(digits_value(s, radix) as u16)
    } else {
        None
    }
}

/// An identifier argument: hexadecimal after a `0x` prefix, else decimal.
pub open spec fn argument_value(s: Seq<u8>) -> Option<u16> {
    if s.len() >= 2 && s[0] == 0x30 && s[1] == 0x78 {
        parse_number(s.skip(2), 16)
    } else {
        parse_number(s, 10)
    }
}

fn digit(c: u8, radix: u32) -> (r: Option<u32>)
    requires
        radix == 10 || radix == 16,
    ensures
        match digit_value(c, radix as nat) {
            Some(v) => r == Some(v as u32),
            None => r is None,
        },
{
    if 0x30 <= c && c <= 0x39 {
        Some((c - 0x30) as u32)
    } else if radix == 16 && 0x61 <= c && c <= 0x66 {
        Some((c - 0x61 + 10) as u32)
    } else if radix == 16 && 0x41 <= c && c <= 0x46 {
        Some((c - 0x41 + 10) as u32)
    } else {
        None
    }
}

fn parse_digits(s: &[u8], start: usize, radix: u32) -> (r: Option<u16>)
    requires
        start <= s@.len(),
        radix == 10 || radix == 16,
    ensures
        r == parse_number(s@.skip(start as int), radix as nat),
{
    let ghost t = s@.skip(start as int);
    if start == s.len() {
        return None;
    }
    // `capped` is the value read so far, or 65536 once that is exceeded.
    let mut capped: u32 = 0;
    let mut i: usize = start;
    while i < s.len()
        invariant
            start <= i <= s@.len(),
            t == s@.skip(start as int),
            radix == 10 || radix == 16,
            all_digits(t.take(i - start), radix as nat),
            capped <= 65536,
            capped == (if digits_value(t.take(i - start), radix as nat) > 65536 { 65536 } else { digits_value(t.take(i - start), radix as nat) }),
        decreases s@.len() - i,
    {
        let ghost k = (i - start) as int;
        assert(t.take(k + 1).drop_last() =~= t.take(k));
        assert(t.take(k + 1).last() == s@[i as int]);
        match digit(s[i], radix) {
            None => {
                assert(!all_digits(t, radix as nat)) by {
                    assert(t[k] == s@[i as int]);
                }
                return None;
            },
            Some(d) => {
                let ghost v = digits_value(t.take(k), radix as nat);
                assert(digits_value(t.take(k + 1), radix as nat) == v * (radix as nat) + d);
                if capped == 65536 {
                    assert(v * (radix as nat) + d > 65536) by (nonlinear_arith)
                        requires v > 65535, radix >= 10;
                } else {
                    assert(v * (radix as nat) + d <= 65535 * 16 + 15) by (nonlinear_arith)
                        requires v <= 65535, radix <= 16, d <= 15;
                }
                let next = capped * radix + d;
                capped = if next > 65536 { 65536 } else { next };
                assert forall|j: int| 0 <= j < k + 1 implies (#[trigger] digit_value(t.take(k + 1)[j], radix as nat)) is Some by {
                    if j < k {
                        assert(t.take(k + 1)[j] == t.take(k)[j]);
                    }
                }
            },
        }
        i = i + 1;
    }
    assert(t.take(s@.len() - start) =~= t);
    if capped > 65535 {
        None
    } else {
        Some(capped as u16)
    }
}

/// Reads a vendor or product identifier: hexadecimal when it starts with
/// `0x`, decimal otherwise. `None` when it is not a number of that base or
/// does not fit in 16 bits.
pub fn convert_argument(input: &str) -> (r: Option<u16>)
    ensures
        r == argument_value(input.spec_bytes()),
{
    let bytes = input.as_bytes();
    if bytes.len() >= 2 && bytes[0] == 0x30 && bytes[1] == 0x78 {
        parse_digits(bytes, 2, 16)
    } else {
        proof {
            assert(bytes@.skip(0) =~= bytes@);
        }
        parse_digits(bytes, 0, 10)
    }
}

} // verus!
