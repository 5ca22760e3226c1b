//! Decimal text, both directions: rendering a `u64` as decimal digits for the
//! view strings, and parsing a decimal byte string into an `i64` the way the
//! Blnscan adapter needs it (optional sign, digits only, rejected when the
//! value leaves the `i64` range).

use vstd::prelude::*;

verus! {

/// The decimal digit character for a value below ten.
pub open spec fn spec_digit_char(d: nat) -> char {
    if d == 0 {
        '0'
    } else if d == 1 {
        '1'
    } else if d == 2 {
        '2'
    } else if d == 3 {
        '3'
    } else if d == 4 {
        '4'
    } else if d == 5 {
        '5'
    } else if d == 6 {
        '6'
    } else if d == 7 {
        '7'
    } else if d == 8 {
        '8'
    } else {
        '9'
    }
}

/// The usual decimal rendering of a natural number, without sign or padding.
pub open spec fn spec_dec(n: nat) -> Seq<char>
    decreases n,
{
    if n < 10 {
        seq![spec_digit_char(n)]
    } else {
        spec_dec(n / 10) + seq![spec_digit_char(n % 10)]
    }
}

/// One-character string for a decimal digit.
fn digit_str(d: u64) -> (r: &'static str)
    requires
        d < 10,
    ensures
        r@ == seq![spec_digit_char(d as nat)],
{
    proof {
        reveal_strlit("0");
        reveal_strlit("1");
        reveal_strlit("2");
        reveal_strlit("3");
        reveal_strlit("4");
        reveal_strlit("5");
        reveal_strlit("6");
        reveal_strlit("7");
        reveal_strlit("8");
        reveal_strlit("9");
    }
    let r: &'static str = match d {
        0 => "0",
        1 => "1",
        2 => "2",
        3 => "3",
        4 => "4",
        5 => "5",
        6 => "6",
        7 => "7",
        8 => "8",
        _ => "9",
    };
    proof {
        assert(r@ =~= seq![spec_digit_char(d as nat)]);
    }
    r
}

/// Renders `n` in decimal.
pub fn dec_of_u64(n: u64) -> (r: String)
    ensures
        r@ == spec_dec(n as nat),
    decreases n,
{
    if n < 10 {
        let s = String::from_str(digit_str(n));
        s
    } else {
        proof {
            assert(n / 10 < n) by (nonlinear_arith)
                requires
                    n >= 10,
            ;
        }
        let mut s = dec_of_u64(n / 10);
        s.append(digit_str(n % 10));
        proof {
            assert(s@ =~= spec_dec(n as nat));
        }
        s
    }
}

/// Whether the byte is an ASCII decimal digit.
pub open spec fn is_digit_byte(b: u8) -> bool {
    48 <= b <= 57
}

/// The value of an ASCII decimal digit byte.
pub open spec fn digit_byte_val(b: u8) -> nat {
    (b - 48) as nat
}

/// The value of a string of decimal digit bytes, most significant first.
pub open spec fn dec_val(s: Seq<u8>) -> nat
    decreases s.len(),
{
    if s.len() == 0 {
        0
    } else {
        dec_val(s.drop_last()) * 10 + digit_byte_val(s.last())
    }
}

/// Whether every byte is an ASCII decimal digit.
pub open spec fn all_digit_bytes(s: Seq<u8>) -> bool {
    forall|i: int| 0 <= i < s.len() ==> is_digit_byte(#[trigger] s[i])
}

/// What parsing a decimal byte string as an `i64` yields: an optional `+` or
/// `-` sign, then at least one digit and nothing else, with values outside
/// the `i64` range rejected. This is the acceptance rule of Rust's own
/// integer parsing, written out.
pub open spec fn spec_parse_i64(s: Seq<u8>) -> Option<i64> {
    let negative = s.len() > 0 && s[0] == 45;
    let digits = if s.len() > 0 && (s[0] == 45 || s[0] == 43) {
        s.skip(1)
    } else {
        s
    };
    if digits.len() == 0 || !all_digit_bytes(digits) {
        Option::None
    } else if negative {
        if dec_val(digits) <= 0x8000_0000_0000_0000 {
            Option::Some((-(dec_val(digits) as int)) as i64)
        } else {
            Option::None
        }
    } else {
        if dec_val(digits) <= 0x7fff_ffff_ffff_ffff {
            Option::Some(dec_val(digits) as i64)
        } else {
            Option::None
        }
    }
}

/// Appending one digit multiplies the value by ten and adds the digit.
proof fn lemma_dec_val_step(s: Seq<u8>, k: int)
    requires
        0 <= k < s.len(),
    ensures
        dec_val(s.take(k + 1)) == dec_val(s.take(k)) * 10 + digit_byte_val(s[k]),
{
    assert(s.take(k + 1).drop_last() =~= s.take(k));
    assert(s.take(k + 1).last() == s[k]);
}

/// A digit string is worth at least any of its prefixes.
proof fn lemma_dec_val_prefix(s: Seq<u8>, k: int)
    requires
        0 <= k <= s.len(),
    ensures
        dec_val(s) >= dec_val(s.take(k)),
    decreases s.len() - k,
{
    if k == s.len() {
        assert(s.take(k) =~= s);
    } else {
        lemma_dec_val_step(s, k);
        lemma_dec_val_prefix(s, k + 1);
    }
}

/// Parses a decimal byte string as an `i64`, exactly as `spec_parse_i64`
/// describes.
pub fn parse_i64_dec(s: &[u8]) -> (r: Option<i64>)
    ensures
        r == spec_parse_i64(s@),
{
    let n = s.len();
    let mut start: usize = 0;
    let mut negative = false;
    if n > 0 && (s[0] == 45 || s[0] == 43) {
        start = 1;
        negative = s[0] == 45;
    }
    let ghost digits = s@.skip(start as int);
    proof {
        if start == 0 {
            assert(digits =~= s@);
        }
    }
    if start >= n {
        proof {
            assert(digits.len() == 0);
        }
        return Option::None;
    }
    let bound: u64 = if negative {
        0x8000_0000_0000_0000
    } else {
        0x7fff_ffff_ffff_ffff
    };
    let mut acc: u64 = 0;
    let mut i: usize = start;
    while i < n
        invariant
            start <= i <= n,
            n == s@.len(),
            start <= 1,
            digits == s@.skip(start as int),
            negative == (s@.len() > 0 && s@[0] == 45),
            (start == 1) == (s@.len() > 0 && (s@[0] == 45 || s@[0] == 43)),
            bound == if negative {
                0x8000_0000_0000_0000u64
            } else {
                0x7fff_ffff_ffff_ffffu64
            },
            all_digit_bytes(digits.take(i - start)),
            acc == dec_val(digits.take(i - start)),
            acc <= bound,
        decreases n - i,
    {
        let b = s[i];
        if !(48 <= b && b <= 57) {
            proof {
                assert(digits[i - start] == b);
                assert(!all_digit_bytes(digits));
            }
            return Option::None;
        }
        let d = (b - 48) as u64;
        proof {
            assert(digits[i - start] == b);
            assert(digits.take(i - start + 1) =~= digits.take(i - start).push(b));
            lemma_dec_val_step(digits, i - start);
        }
        if acc > (bound - d) / 10 {
            proof {
                assert(dec_val(digits.take(i - start + 1)) > bound) by (nonlinear_arith)
                    requires
                        acc > (bound - d) / 10,
                        d < 10,
                        d <= bound,
                        dec_val(digits.take(i as int - start as int + 1)) == acc * 10 + d,
                ;
                lemma_dec_val_prefix(digits, i - start + 1);
                assert(dec_val(digits) > bound);
                let sd = if s@.len() > 0 && (s@[0] == 45 || s@[0] == 43) {
                    s@.skip(1)
                } else {
                    s@
                };
                assert(sd == digits);
                assert(spec_parse_i64(s@) is None);
            }
            return Option::None;
        }
        proof {
            assert(acc * 10 + d <= bound) by (nonlinear_arith)
                requires
                    acc <= (bound - d) / 10,
                    d < 10,
                    d <= bound,
            ;
        }
        acc = acc * 10 + d;
        i = i + 1;
    }
    proof {
        assert(digits.take(i - start) =~= digits);
    }
    if negative {
        if acc == 0x8000_0000_0000_0000 {
            Option::Some(i64::MIN)
        } else {
            Option::Some(-(acc as i64))
        }
    } else {
        Option::Some(acc as i64)
    }
}

} // verus!
