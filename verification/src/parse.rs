//! Reading numbers and flags from text, as Rust's `str::parse` reads them.

use vstd::prelude::*;

verus! {

/// The value of a run of decimal digits.
pub open spec fn digits_value(s: Seq<char>) -> int
    decreases s.len(),
{
    if s.len() == 0 {
        0
    } else {
        digits_value(s.drop_last()) * 10 + (s.last() as int - '0' as int)
    }
}

/// The integer that a text writes: an optional `+` (or, where `signed`, `-`), then one
/// or more ASCII digits; none for any other text.
pub open spec fn parsed_integer(text: Seq<char>, signed: bool) -> Option<int> {
    let negative = signed && text.len() > 0 && text[0] == '-';
    let body = unsigned_body(text, signed);
    if body.len() > 0 && all_digits(body) {
        Some(
            if negative {
                -digits_value(body)
            } else {
                digits_value(body)
            },
        )
    } else {
        None
    }
}

/// Whether every character of the text is an ASCII digit.
pub open spec fn all_digits(s: Seq<char>) -> bool {
    forall|i: int| 0 <= i < s.len() ==> '0' <= #[trigger] s[i] <= '9'
}

/// The text after its sign: without a leading `+` (or, where `signed`, `-`).
pub open spec fn unsigned_body(text: Seq<char>, signed: bool) -> Seq<char> {
    if text.len() > 0 && (text[0] == '+' || (signed && text[0] == '-')) {
        text.drop_first()
    } else {
        text
    }
}

/// The `u32` that a text writes (`str::parse::<u32>`).
pub open spec fn parsed_u32(text: Seq<char>) -> Option<u32> {
    match parsed_integer(text, false) {
        Some(v) => if v <= u32::MAX {
            Some(v as u32)
        } else {
            None
        },
        None => None,
    }
}

/// The `u64` that a text writes (`str::parse::<u64>`).
pub open spec fn parsed_u64_value(text: Seq<char>) -> Option<u64> {
    match parsed_integer(text, false) {
        Some(v) => if v <= u64::MAX {
            Some(v as u64)
        } else {
            None
        },
        None => None,
    }
}

/// The `i64` that a text writes (`str::parse::<i64>`).
pub open spec fn parsed_i64(text: Seq<char>) -> Option<i64> {
    match parsed_integer(text, true) {
        Some(v) => if i64::MIN <= v <= i64::MAX {
            Some(v as i64)
        } else {
            None
        },
        None => None,
    }
}

/// The `i16` that a text writes (`str::parse::<i16>`).
pub open spec fn parsed_i16(text: Seq<char>) -> Option<i16> {
    match parsed_integer(text, true) {
        Some(v) => if i16::MIN <= v <= i16::MAX {
            Some(v as i16)
        } else {
            None
        },
        None => None,
    }
}

/// The flag that a text writes (`str::parse::<bool>`): exactly `true` or `false`.
pub open spec fn parsed_bool(text: Seq<char>) -> Option<bool> {
    if text == "true"@ {
        Some(true)
    } else if text == "false"@ {
        Some(false)
    } else {
        None
    }
}

proof fn lemma_digits_value_nonneg(s: Seq<char>)
    requires
        all_digits(s),
    ensures
        digits_value(s) >= 0,
    decreases s.len(),
{
    if s.len() > 0 {
        lemma_digits_value_nonneg(s.drop_last());
        assert(s.last() == s[s.len() - 1]);
    }
}

proof fn lemma_unsigned_parse_nonneg(text: Seq<char>)
    ensures
        parsed_integer(text, false) matches Some(v) ==> v >= 0,
{
    let body = unsigned_body(text, false);
    if body.len() > 0 && all_digits(body) {
        lemma_digits_value_nonneg(body);
    }
}

/// The value of the digits from `start` on, where they are one or more ASCII digits whose
/// value is at most `limit`; `None` otherwise.
fn digits_up_to(chars: &Vec<char>, start: usize, limit: u64) -> (r: Option<u64>)
    requires
        start <= chars@.len(),
    ensures
        ({
            let b = chars@.subrange(start as int, chars@.len() as int);
            match r {
                Some(v) => b.len() > 0 && all_digits(b) && digits_value(b) == v && v <= limit,
                None => !(b.len() > 0 && all_digits(b) && digits_value(b) <= limit),
            }
        }),
{
    let mut acc: u64 = 0;
    let mut over = false;
    let mut i: usize = start;
    while i < chars.len()
        invariant
            start <= i <= chars@.len(),
            all_digits(chars@.subrange(start as int, i as int)),
            !over ==> acc == digits_value(chars@.subrange(start as int, i as int)) && acc <= limit,
            over ==> digits_value(chars@.subrange(start as int, i as int)) > limit,
        decreases chars.len() - i,
    {
        let c = chars[i];
        let ghost before = chars@.subrange(start as int, i as int);
        let ghost after = chars@.subrange(start as int, i + 1);
        assert(after.drop_last() =~= before);
        assert(after.last() == c);
        if !('0' <= c && c <= '9') {
            proof {
                let b = chars@.subrange(start as int, chars@.len() as int);
                assert(b[i - start] == c);
            }
            return None;
        }
        proof {
            lemma_digits_value_nonneg(before);
        }
        let d: u64 = (c as u32 - '0' as u32) as u64;
        if !over {
            let wide: u128 = (acc as u128) * 10 + (d as u128);
            if wide > limit as u128 {
                over = true;
            } else {
                acc = wide as u64;
            }
        }
        i = i + 1;
        assert forall|k: int| 0 <= k < after.len() implies '0' <= #[trigger] after[k] <= '9' by {
            if k < before.len() {
                assert(after[k] == before[k]);
            }
        }
        assert(chars@.subrange(start as int, i as int) == after);
    }
    if i == start || over {
        None
    } else {
        Some(acc)
    }
}

/// The integer that a text writes, where it is one from `-min_magnitude` (with `signed`)
/// to `max`: as a sign and a magnitude.
fn signed_parts(text: &str, signed: bool, max: u64, min_magnitude: u64) -> (r: Option<(bool, u64)>)
    ensures
        match parsed_integer(text@, signed) {
            Some(v) => if (v >= 0 && v <= max) || (v < 0 && -v <= min_magnitude) {
                r matches Some(p) && (if p.0 {
                    v == -(p.1 as int) && p.1 > 0
                } else {
                    v == p.1 as int
                })
            } else {
                r is None
            },
            None => r is None,
        },
{
    let chars = crate::text::chars_of(text);
    let negative = signed && chars.len() > 0 && chars[0] == '-';
    let start: usize = if chars.len() > 0 && (chars[0] == '+' || negative) {
        1
    } else {
        0
    };
    let ghost body = chars@.subrange(start as int, chars@.len() as int);
    assert(body =~= unsigned_body(text@, signed));
    let limit = if negative {
        min_magnitude
    } else {
        max
    };
    match digits_up_to(&chars, start, limit) {
        Some(m) => {
            if negative && m == 0 {
                Some((false, 0))
            } else {
                Some((negative, m))
            }
        },
        None => {
            proof {
                if body.len() > 0 && all_digits(body) {
                    lemma_digits_value_nonneg(body);
                }
            }
            None
        },
    }
}

/// Reads a `u32` as `str::parse::<u32>` does: an optional `+`, then one or more ASCII
/// digits, with a value that fits.
pub(crate) fn parse_u32(text: &str) -> (r: Option<u32>)
    ensures
        r == parsed_u32(text@),
{
    proof {
        lemma_unsigned_parse_nonneg(text@);
    }
    match signed_parts(text, false, 0xffff_ffff, 0) {
        Some((_, m)) => Some(m as u32),
        None => None,
    }
}

/// Reads a `u64` as `str::parse::<u64>` does: an optional `+`, then one or more ASCII
/// digits, with a value that fits.
pub(crate) fn parse_u64(text: &str) -> (r: Option<u64>)
    ensures
        r == parsed_u64_value(text@),
{
    proof {
        lemma_unsigned_parse_nonneg(text@);
    }
    match signed_parts(text, false, 0xffff_ffff_ffff_ffff, 0) {
        Some((_, m)) => Some(m),
        None => None,
    }
}

/// Reads an `i64` as `str::parse::<i64>` does: an optional `+` or `-`, then one or more
/// ASCII digits, with a value that fits.
pub(crate) fn parse_i64(text: &str) -> (r: Option<i64>)
    ensures
        r == parsed_i64(text@),
{
    match signed_parts(text, true, 0x7fff_ffff_ffff_ffff, 0x8000_0000_0000_0000) {
        Some((negative, m)) => {
            let wide: i128 = if negative {
                0 - (m as i128)
            } else {
                m as i128
            };
            Some(wide as i64)
        },
        None => None,
    }
}

/// Reads an `i16` as `str::parse::<i16>` does: an optional `+` or `-`, then one or more
/// ASCII digits, with a value that fits.
pub(crate) fn parse_i16(text: &str) -> (r: Option<i16>)
    ensures
        r == parsed_i16(text@),
{
    match signed_parts(text, true, 0x7fff, 0x8000) {
        Some((negative, m)) => {
            let wide: i32 = if negative {
                0 - (m as i32)
            } else {
                m as i32
            };
            Some(wide as i16)
        },
        None => None,
    }
}

/// Reads a flag as `str::parse::<bool>` does: exactly `true` or `false`.
pub(crate) fn parse_bool(text: &str) -> (r: Option<bool>)
    ensures
        r == parsed_bool(text@),
{
    proof {
        reveal_strlit("true");
        reveal_strlit("false");
    }
    let c = crate::text::chars_of(text);
    if c.len() == 4 && c[0] == 't' && c[1] == 'r' && c[2] == 'u' && c[3] == 'e' {
        assert(text@ =~= "true"@);
        Some(true)
    } else if c.len() == 5 && c[0] == 'f' && c[1] == 'a' && c[2] == 'l' && c[3] == 's' && c[4] == 'e' {
        assert(text@ =~= "false"@);
        Some(false)
    } else {
        proof {
            if text@ == "true"@ {
                assert(c@[0] == 't' && c@[1] == 'r' && c@[2] == 'u' && c@[3] == 'e');
            }
            if text@ == "false"@ {
                assert(c@[0] == 'f' && c@[1] == 'a' && c@[2] == 'l' && c@[3] == 's' && c@[4] == 'e');
            }
        }
        None
    }
}

} // verus!
