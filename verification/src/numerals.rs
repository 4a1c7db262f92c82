//! Decimal rendering and parsing of unsigned numbers, proved against
//! the mathematical decimal representation.
//!
//! Rendering is used for catalog item identifiers and for the numeric
//! part of a session token's message; parsing is used for the menu
//! selections and amounts typed at the boundary.

use vstd::prelude::*;
use vstd::string::StringSliceAdditionalSpecFns;

verus! {

/// The character for one decimal digit.
pub open spec fn digit_char(d: int) -> char {
    if d == 0 {
        '0'
    } else if d == 1 {
        '1'
    } else if d == 2 {
        '2'
    } else if d == 3 {
        '3'
    } else if d == 4 {
        '4'
    } else if d == 5 {
        '5'
    } else if d == 6 {
        '6'
    } else if d == 7 {
        '7'
    } else if d == 8 {
        '8'
    } else {
        '9'
    }
}

/// The decimal rendering of `n`, most significant digit first, with
/// no leading zero except for `n == 0` itself.
pub open spec fn dec_rep(n: nat) -> Seq<char>
    decreases n,
{
    if n < 10 {
        seq![digit_char(n as int)]
    } else {
        dec_rep(n / 10).push(digit_char((n % 10) as int))
    }
}

/// The one-character string for a decimal digit.
fn digit_str(d: u64) -> (s: &'static str)
    requires
        d < 10,
    ensures
        s@ == seq![digit_char(d as int)],
{
    proof {
        reveal_strlit("0");
        reveal_strlit("1");
        reveal_strlit("2");
        reveal_strlit("3");
        reveal_strlit("4");
        reveal_strlit("5");
        reveal_strlit("6");
        reveal_strlit("7");
        reveal_strlit("8");
        reveal_strlit("9");
    }
    let s = match d {
        0 => "0",
        1 => "1",
        2 => "2",
        3 => "3",
        4 => "4",
        5 => "5",
        6 => "6",
        7 => "7",
        8 => "8",
        _ => "9",
    };
    proof {
        assert(s@ =~= seq![digit_char(d as int)]);
    }
    s
}

/// Renders `n` in decimal.
pub fn u64_to_string(n: u64) -> (s: String)
    ensures
        s@ == dec_rep(n as nat),
    decreases n,
{
    if n < 10 {
        String::from_str(digit_str(n))
    } else {
        let mut s = u64_to_string(n / 10);
        s.append(digit_str(n % 10));
        proof {
            assert(s@ =~= dec_rep((n / 10) as nat).push(digit_char((n % 10) as int)));
        }
        s
    }
}

/// Whether `b` is the code of a decimal digit.
pub open spec fn is_dec_digit(b: u8) -> bool {
    48 <= b <= 57
}

/// Whether every byte is a decimal digit.
pub open spec fn all_dec_digits(bs: Seq<u8>) -> bool {
    forall|i: int| 0 <= i < bs.len() ==> is_dec_digit(#[trigger] bs[i])
}

/// The numeric value of a big-endian sequence of decimal digits.
pub open spec fn dec_value(bs: Seq<u8>) -> int
    decreases bs.len(),
{
    if bs.len() == 0 {
        0
    } else {
        dec_value(bs.drop_last()) * 10 + (bs.last() - 48)
    }
}

/// The value of a digit string is never negative.
proof fn lemma_dec_value_nonneg(bs: Seq<u8>)
    requires
        all_dec_digits(bs),
    ensures
        dec_value(bs) >= 0,
    decreases bs.len(),
{
    if bs.len() > 0 {
        assert(all_dec_digits(bs.drop_last()));
        lemma_dec_value_nonneg(bs.drop_last());
    }
}

/// Every prefix of a digit string is worth at most the whole.
proof fn lemma_dec_value_prefix_le(bs: Seq<u8>, i: int)
    requires
        all_dec_digits(bs),
        0 <= i <= bs.len(),
    ensures
        dec_value(bs.take(i)) <= dec_value(bs),
    decreases bs.len() - i,
{
    assert(all_dec_digits(bs.take(i)));
    if i == bs.len() {
        assert(bs.take(i) =~= bs);
    } else {
        assert(bs.take(i + 1).drop_last() =~= bs.take(i));
        lemma_dec_value_nonneg(bs.take(i));
        assert(dec_value(bs.take(i + 1)) >= dec_value(bs.take(i)));
        lemma_dec_value_prefix_le(bs, i + 1);
    }
}

/// Parses a non-empty, all-digit decimal string into a `usize`.
/// Returns `None` exactly on the empty string, on any non-digit
/// character, or when the value does not fit the machine word.  No
/// sign and no surrounding space is accepted.
pub fn parse_usize(s: &str) -> (r: Option<usize>)
    ensures
        match r {
            Some(v) => {
                &&& s.spec_bytes().len() > 0
                &&& all_dec_digits(s.spec_bytes())
                &&& v == dec_value(s.spec_bytes())
            },
            None => {
                ||| s.spec_bytes().len() == 0
                ||| !all_dec_digits(s.spec_bytes())
                ||| dec_value(s.spec_bytes()) > usize::MAX
            },
        },
{
    let bs = s.as_bytes();
    let n = bs.len();
    if n == 0 {
        return None;
    }
    let mut v: usize = 0;
    let mut i: usize = 0;
    while i < n
        invariant
            n == bs@.len(),
            bs@ == s.spec_bytes(),
            0 <= i <= n,
            all_dec_digits(bs@.take(i as int)),
            v == dec_value(bs@.take(i as int)),
        decreases n - i,
    {
        let b = bs[i];
        if b < 48 || b > 57 {
            return None;
        }
        proof {
            assert(bs@.take(i + 1).drop_last() =~= bs@.take(i as int));
            assert(bs@.take(i + 1).last() == bs@[i as int]);
        }
        let shifted = match v.checked_mul(10) {
            Some(x) => x,
            None => {
                proof {
                    if all_dec_digits(bs@) {
                        lemma_dec_value_prefix_le(bs@, i + 1);
                    }
                }
                return None;
            },
        };
        let next = match shifted.checked_add((b - 48) as usize) {
            Some(x) => x,
            None => {
                proof {
                    if all_dec_digits(bs@) {
                        lemma_dec_value_prefix_le(bs@, i + 1);
                    }
                }
                return None;
            },
        };
        v = next;
        i = i + 1;
    }
    proof {
        assert(bs@.take(n as int) =~= bs@);
    }
    Some(v)
}

} // verus!
