//! Decimal rendering and parsing of the integer keys and configuration
//! numbers that cross the API boundary as text: token subjects carry a user
//! id as a decimal string, and configuration values arrive as strings.

use vstd::prelude::*;

verus! {

/// The character for one decimal digit.
pub open spec fn digit_char(d: int) -> char {
    seq!['0', '1', '2', '3', '4', '5', '6', '7', '8', '9'][d]
}

/// Whether a character is a decimal digit.
pub open spec fn is_digit(c: char) -> bool {
    48 <= c as u32 <= 57
}

/// Numeric value of a decimal digit character.
pub open spec fn digit_value(c: char) -> int {
    c as u32 - 48
}

/// Whether every character of `s` is a decimal digit.
pub open spec fn all_digits(s: Seq<char>) -> bool {
    forall|i: int| 0 <= i < s.len() ==> is_digit(#[trigger] s[i])
}

/// Value of a digit string, most significant digit first.
pub open spec fn digits_value(s: Seq<char>) -> int
    decreases s.len(),
{
    if s.len() == 0 {
        0
    } else {
        10 * digits_value(s.drop_last()) + digit_value(s.last())
    }
}

/// The decimal digit string of a nonnegative integer, without sign or
/// leading zeros (a single zero for 0).
pub open spec fn spec_udec(n: nat) -> Seq<char>
    decreases n,
{
    if n < 10 {
        seq![digit_char(n as int)]
    } else {
        spec_udec((n / 10) as nat).push(digit_char((n % 10) as int))
    }
}

/// The decimal rendering of an integer: a minus sign before the digits of
/// the magnitude when negative.
pub open spec fn spec_dec(n: int) -> Seq<char> {
    if n < 0 {
        seq!['-'] + spec_udec((-n) as nat)
    } else {
        spec_udec(n as nat)
    }
}

/// A nonempty all-digit string parses to its value; anything else is
/// rejected.
pub open spec fn spec_parse_digits(s: Seq<char>) -> Option<int> {
    if s.len() >= 1 && all_digits(s) {
        Some(digits_value(s))
    } else {
        None
    }
}

/// Signed decimal parsing: one optional leading `+` or `-`, then at least
/// one digit, nothing else.
pub open spec fn spec_parse_int(s: Seq<char>) -> Option<int> {
    if s.len() >= 1 && s[0] == '-' {
        match spec_parse_digits(s.skip(1)) {
            Some(v) => Some(-v),
            None => None,
        }
    } else if s.len() >= 1 && s[0] == '+' {
        spec_parse_digits(s.skip(1))
    } else {
        spec_parse_digits(s)
    }
}

/// Unsigned decimal parsing: one optional leading `+`, then at least one
/// digit, nothing else; a minus sign is rejected even before a zero.
pub open spec fn spec_parse_uint(s: Seq<char>) -> Option<int> {
    if s.len() >= 1 && s[0] == '+' {
        spec_parse_digits(s.skip(1))
    } else {
        spec_parse_digits(s)
    }
}

/// The value of a digit string is never negative.
proof fn lemma_digits_value_nonneg(s: Seq<char>)
    requires
        all_digits(s),
    ensures
        digits_value(s) >= 0,
    decreases s.len(),
{
    if s.len() > 0 {
        assert(all_digits(s.drop_last()));
        lemma_digits_value_nonneg(s.drop_last());
    }
}

/// The value of a prefix of a digit string never exceeds the value of the
/// whole string.
proof fn lemma_digits_value_prefix_le(s: Seq<char>, j: int)
    requires
        all_digits(s),
        0 <= j <= s.len(),
    ensures
        digits_value(s.take(j)) <= digits_value(s),
    decreases s.len() - j,
{
    if j < s.len() {
        lemma_digits_value_prefix_le(s, j + 1);
        let t = s.take(j + 1);
        assert(t.drop_last() =~= s.take(j));
        assert(all_digits(t.drop_last()));
        lemma_digits_value_nonneg(t.drop_last());
        assert(digits_value(t) == 10 * digits_value(s.take(j)) + digit_value(s[j]));
    } else {
        assert(s.take(j) =~= s);
    }
}

/// Parses `s` from position `from` to the end as an unsigned digit string
/// whose value fits below `max`; the core shared by every typed parser.
fn parse_digits_u64(s: &str, from: usize, max: u64) -> (r: Option<u64>)
    requires
        from <= s@.len(),
    ensures
        match r {
            Some(v) => spec_parse_digits(s@.skip(from as int)) == Some(v as int) && v <= max,
            None => !(spec_parse_digits(s@.skip(from as int)) matches Some(v) && v <= max),
        },
{
    let ghost tail = s@.skip(from as int);
    let len: usize = s.unicode_len();
    if from == len {
        return None;
    }
    let mut acc: u64 = 0;
    let mut i: usize = from;
    while i < len
        invariant
            from <= i <= len,
            len == s@.len(),
            from < len,
            tail == s@.skip(from as int),
            all_digits(s@.subrange(from as int, i as int)),
            acc as int == digits_value(s@.subrange(from as int, i as int)),
            acc <= max,
        decreases len - i,
    {
        let c: char = s.get_char(i);
        let code: u32 = c as u32;
        if code < 48 || code > 57 {
            proof {
                assert(tail[i - from] == s@[i as int]);
                assert(!is_digit(tail[i - from]));
                assert(!all_digits(tail));
            }
            return None;
        }
        let d: u64 = (code - 48) as u64;
        let ghost prefix = s@.subrange(from as int, i as int);
        let ghost prefix1 = s@.subrange(from as int, i + 1 as int);
        proof {
            assert(prefix1.drop_last() =~= prefix);
            assert(prefix1.last() == s@[i as int]);
        }
        if acc > max / 10 || (acc == max / 10 && d > max % 10) {
            // the value up to and including this digit already exceeds max
            proof {
                assert(digits_value(prefix1) > max) by (nonlinear_arith)
                    requires
                        digits_value(prefix1) == 10 * digits_value(prefix) + digit_value(
                            s@[i as int],
                        ),
                        acc as int == digits_value(prefix),
                        digit_value(s@[i as int]) == d,
                        0 <= d <= 9,
                        acc > max / 10 || (acc == max / 10 && d > max % 10),
                        max / 10 == (max as int) / 10,
                        max % 10 == (max as int) % 10,
                ;
                if all_digits(tail) {
                    assert(tail.take(i + 1 - from as int) =~= prefix1);
                    lemma_digits_value_prefix_le(tail, i + 1 - from as int);
                }
            }
            return None;
        }
        proof {
            assert(10 * (acc as int) + d <= max) by (nonlinear_arith)
                requires
                    0 <= d <= 9,
                    0 <= acc,
                    acc <= max / 10,
                    acc == max / 10 ==> d <= max % 10,
                    max / 10 == (max as int) / 10,
                    max % 10 == (max as int) % 10,
            ;
        }
        acc = acc * 10 + d;
        i = i + 1;
    }
    proof {
        assert(s@.subrange(from as int, len as int) =~= tail);
    }
    Some(acc)
}

/// Exact unsigned 16-bit decimal parsing, as a port number arrives.
pub fn parse_u16(s: &str) -> (r: Option<u16>)
    ensures
        match r {
            Some(v) => spec_parse_uint(s@) == Some(v as int),
            None => !(spec_parse_uint(s@) matches Some(v) && 0 <= v <= u16::MAX),
        },
{
    match parse_u64_bounded(s, u16::MAX as u64) {
        Some(v) => Some(v as u16),
        None => None,
    }
}

/// Exact unsigned 32-bit decimal parsing.
pub fn parse_u32(s: &str) -> (r: Option<u32>)
    ensures
        match r {
            Some(v) => spec_parse_uint(s@) == Some(v as int),
            None => !(spec_parse_uint(s@) matches Some(v) && 0 <= v <= u32::MAX),
        },
{
    match parse_u64_bounded(s, u32::MAX as u64) {
        Some(v) => Some(v as u32),
        None => None,
    }
}

/// Unsigned parsing against an explicit bound.
fn parse_u64_bounded(s: &str, max: u64) -> (r: Option<u64>)
    ensures
        match r {
            Some(v) => spec_parse_uint(s@) == Some(v as int) && v <= max,
            None => !(spec_parse_uint(s@) matches Some(v) && 0 <= v <= max),
        },
{
    if s.unicode_len() >= 1 && s.get_char(0) == '+' {
        parse_digits_u64(s, 1, max)
    } else {
        proof {
            assert(s@.skip(0) =~= s@);
        }
        parse_digits_u64(s, 0, max)
    }
}

/// Exact signed 64-bit decimal parsing, as a configured time-to-live
/// arrives.
pub fn parse_i64(s: &str) -> (r: Option<i64>)
    ensures
        match r {
            Some(v) => spec_parse_int(s@) == Some(v as int),
            None => !(spec_parse_int(s@) matches Some(v) && i64::MIN <= v <= i64::MAX),
        },
{
    if s.unicode_len() >= 1 && s.get_char(0) == '-' {
        match parse_digits_u64(s, 1, 9223372036854775808u64) {
            Some(m) => {
                if m == 9223372036854775808u64 {
                    Some(i64::MIN)
                } else {
                    Some(-(m as i64))
                }
            },
            None => None,
        }
    } else if s.unicode_len() >= 1 && s.get_char(0) == '+' {
        match parse_digits_u64(s, 1, i64::MAX as u64) {
            Some(m) => Some(m as i64),
            None => None,
        }
    } else {
        proof {
            assert(s@.skip(0) =~= s@);
        }
        match parse_digits_u64(s, 0, i64::MAX as u64) {
            Some(m) => Some(m as i64),
            None => None,
        }
    }
}

/// Exact signed 32-bit decimal parsing, as a token subject is read back
/// into a user id.
pub fn parse_i32(s: &str) -> (r: Option<i32>)
    ensures
        match r {
            Some(v) => spec_parse_int(s@) == Some(v as int),
            None => !(spec_parse_int(s@) matches Some(v) && i32::MIN <= v <= i32::MAX),
        },
{
    if s.unicode_len() >= 1 && s.get_char(0) == '-' {
        match parse_digits_u64(s, 1, 2147483648u64) {
            Some(m) => {
                if m == 2147483648u64 {
                    Some(i32::MIN)
                } else {
                    Some(-(m as i32))
                }
            },
            None => None,
        }
    } else if s.unicode_len() >= 1 && s.get_char(0) == '+' {
        match parse_digits_u64(s, 1, i32::MAX as u64) {
            Some(m) => Some(m as i32),
            None => None,
        }
    } else {
        proof {
            assert(s@.skip(0) =~= s@);
        }
        match parse_digits_u64(s, 0, i32::MAX as u64) {
            Some(m) => Some(m as i32),
            None => None,
        }
    }
}

/// A one-character string for the given digit.
fn digit_str(d: u64) -> (r: &'static str)
    requires
        d < 10,
    ensures
        r@ =~= seq![digit_char(d as int)],
{
    match d {
        0 => {
            proof {
                reveal_strlit("0");
            }
            "0"
        },
        1 => {
            proof {
                reveal_strlit("1");
            }
            "1"
        },
        2 => {
            proof {
                reveal_strlit("2");
            }
            "2"
        },
        3 => {
            proof {
                reveal_strlit("3");
            }
            "3"
        },
        4 => {
            proof {
                reveal_strlit("4");
            }
            "4"
        },
        5 => {
            proof {
                reveal_strlit("5");
            }
            "5"
        },
        6 => {
            proof {
                reveal_strlit("6");
            }
            "6"
        },
        7 => {
            proof {
                reveal_strlit("7");
            }
            "7"
        },
        8 => {
            proof {
                reveal_strlit("8");
            }
            "8"
        },
        _ => {
            proof {
                reveal_strlit("9");
            }
            "9"
        },
    }
}

/// Appends the decimal digits of `n` to `s`, most significant first.
fn push_udec(s: &mut String, n: u64)
    ensures
        final(s)@ == old(s)@ + spec_udec(n as nat),
    decreases n,
{
    if n >= 10 {
        push_udec(s, n / 10);
        let ds = digit_str(n % 10);
        s.append(ds);
        proof {
            assert(old(s)@ + spec_udec(n as nat) =~= (old(s)@ + spec_udec((n / 10) as nat))
                + ds@);
        }
    } else {
        let ds = digit_str(n);
        s.append(ds);
        proof {
            assert(old(s)@ + spec_udec(n as nat) =~= old(s)@ + ds@);
        }
    }
}

/// Renders a user id the way the token codec carries it: the shortest
/// decimal form, with a minus sign for negative values.
pub fn i32_to_decimal(n: i32) -> (r: String)
    ensures
        r@ == spec_dec(n as int),
{
    let mut s = String::new();
    if n < 0 {
        proof {
            reveal_strlit("-");
        }
        s.append("-");
        let m: u64 = (-(n as i64)) as u64;
        push_udec(&mut s, m);
        proof {
            assert(s@ =~= spec_dec(n as int));
        }
    } else {
        push_udec(&mut s, n as u64);
        proof {
            assert(s@ =~= spec_dec(n as int));
        }
    }
    s
}

/// Facts about the digit string of a nonnegative integer: it is nonempty,
/// all digits, starts with a digit, and parses back to the same value.
proof fn lemma_udec_props(n: nat)
    ensures
        spec_udec(n).len() >= 1,
        all_digits(spec_udec(n)),
        digits_value(spec_udec(n)) == n,
    decreases n,
{
    if n < 10 {
        let s = spec_udec(n);
        assert(s.drop_last() =~= Seq::<char>::empty());
        assert(digits_value(Seq::<char>::empty()) == 0);
        assert(s.last() == digit_char(n as int));
        assert(digit_value(digit_char(n as int)) == n);
        assert(is_digit(digit_char(n as int)));
        assert(digits_value(s) == 10 * digits_value(s.drop_last()) + digit_value(s.last()));
    } else {
        lemma_udec_props((n / 10) as nat);
        let t = spec_udec((n / 10) as nat);
        let d = digit_char((n % 10) as int);
        let s = t.push(d);
        assert(s.drop_last() =~= t);
        assert(s.last() == d);
        assert(digit_value(d) == n % 10);
        assert(is_digit(d));
        assert(forall|i: int| 0 <= i < s.len() ==> is_digit(#[trigger] s[i]));
        assert(digits_value(s) == 10 * digits_value(t) + digit_value(d));
        vstd::arithmetic::div_mod::lemma_fundamental_div_mod(n as int, 10);
    }
}

/// Rendering an integer in decimal and parsing it back yields the same
/// integer: the token codec's subject field survives the round trip.
pub proof fn lemma_decimal_round_trip(n: int)
    ensures
        spec_parse_int(spec_dec(n)) == Some(n),
{
    if n < 0 {
        let m = (-n) as nat;
        lemma_udec_props(m);
        let s = spec_dec(n);
        assert(s[0] == '-');
        assert(s.skip(1) =~= spec_udec(m));
    } else {
        lemma_udec_props(n as nat);
        let s = spec_dec(n);
        assert(s == spec_udec(n as nat));
        assert(is_digit(s[0]));
        assert(s[0] != '-' && s[0] != '+');
    }
}

} // verus!
