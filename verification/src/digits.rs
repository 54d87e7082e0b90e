//! Decimal rendering and parsing of integers, verified against a
//! sequence-of-characters model.

use vstd::prelude::*;
use vstd::string::StrSliceExecFns;
use vstd::string::StringExecFns;

verus! {

/// The character for one decimal digit.
pub open spec fn digit_char(d: int) -> char {
    if d == 0 {
        '0'
    } else if d == 1 {
        '1'
    } else if d == 2 {
        '2'
    } else if d == 3 {
        '3'
    } else if d == 4 {
        '4'
    } else if d == 5 {
        '5'
    } else if d == 6 {
        '6'
    } else if d == 7 {
        '7'
    } else if d == 8 {
        '8'
    } else {
        '9'
    }
}

/// The decimal rendering of a natural number, most significant digit first.
pub open spec fn dec_rep(n: nat) -> Seq<char>
    decreases n,
{
    if n < 10 {
        seq![digit_char(n as int)]
    } else {
        dec_rep(n / 10) + seq![digit_char((n % 10) as int)]
    }
}

/// The decimal rendering of a signed number: a minus sign before the
/// magnitude when negative.
pub open spec fn dec_rep_signed(n: int) -> Seq<char> {
    if n < 0 {
        seq!['-'] + dec_rep((-n) as nat)
    } else {
        dec_rep(n as nat)
    }
}

/// Whether `c` is a decimal digit.
pub open spec fn is_digit(c: char) -> bool {
    '0' <= c && c <= '9'
}

/// The value of one digit character.
pub open spec fn digit_val(c: char) -> int {
    c as int - '0' as int
}

/// Whether every character of `s` is a decimal digit.
pub open spec fn all_digits(s: Seq<char>) -> bool {
    forall|i: int| 0 <= i < s.len() ==> is_digit(#[trigger] s[i])
}

/// The numeric value of a digit string, most significant digit first.
pub open spec fn dec_val(s: Seq<char>) -> int
    decreases s.len(),
{
    if s.len() == 0 {
        0
    } else {
        dec_val(s.drop_last()) * 10 + digit_val(s.last())
    }
}

/// A string of digits, nonempty.
pub open spec fn valid_unsigned_literal(s: Seq<char>) -> bool {
    s.len() > 0 && all_digits(s)
}

/// A nonempty digit string, optionally preceded by a minus sign.
pub open spec fn valid_signed_literal(s: Seq<char>) -> bool {
    if s.len() > 0 && s[0] == '-' {
        valid_unsigned_literal(s.skip(1))
    } else {
        valid_unsigned_literal(s)
    }
}

/// The value of a signed decimal literal.
pub open spec fn signed_val(s: Seq<char>) -> int {
    if s.len() > 0 && s[0] == '-' {
        -dec_val(s.skip(1))
    } else {
        dec_val(s)
    }
}

/// A digit string's value is non-negative.
pub proof fn lemma_dec_val_nonneg(s: Seq<char>)
    requires
        all_digits(s),
    ensures
        dec_val(s) >= 0,
    decreases s.len(),
{
    if s.len() > 0 {
        assert(all_digits(s.drop_last()));
        lemma_dec_val_nonneg(s.drop_last());
    }
}

/// Reading one more digit multiplies the prefix value by ten and adds the
/// digit.
pub proof fn lemma_dec_val_step(s: Seq<char>, i: int)
    requires
        0 <= i < s.len(),
    ensures
        dec_val(s.take(i + 1)) == dec_val(s.take(i)) * 10 + digit_val(s[i]),
{
    assert(s.take(i + 1).drop_last() =~= s.take(i));
    assert(s.take(i + 1).last() == s[i]);
}

/// The whole digit string's value is at least any prefix's value.
pub proof fn lemma_dec_val_prefix_le(s: Seq<char>, i: int)
    requires
        all_digits(s),
        0 <= i <= s.len(),
    ensures
        dec_val(s.take(i)) <= dec_val(s),
    decreases s.len() - i,
{
    if i < s.len() {
        lemma_dec_val_step(s, i);
        assert(all_digits(s.take(i)));
        lemma_dec_val_nonneg(s.take(i));
        lemma_dec_val_prefix_le(s, i + 1);
    } else {
        assert(s.take(i) =~= s);
    }
}

/// The one-character string for a digit.
pub fn digit_str(d: u64) -> (r: &'static str)
    requires
        d < 10,
    ensures
        r@ =~= seq![digit_char(d as int)],
{
    proof {
        reveal_strlit("0");
        reveal_strlit("1");
        reveal_strlit("2");
        reveal_strlit("3");
        reveal_strlit("4");
        reveal_strlit("5");
        reveal_strlit("6");
        reveal_strlit("7");
        reveal_strlit("8");
        reveal_strlit("9");
    }
    match d {
        0 => "0",
        1 => "1",
        2 => "2",
        3 => "3",
        4 => "4",
        5 => "5",
        6 => "6",
        7 => "7",
        8 => "8",
        _ => "9",
    }
}

/// The digits of `ds`, least significant first, rendered most significant
/// first.
spec fn rev_chars(ds: Seq<u64>) -> Seq<char> {
    Seq::new(ds.len(), |i: int| digit_char(ds[ds.len() - 1 - i] as int))
}

/// Renders a number in decimal.
pub fn u64_to_string(n: u64) -> (r: String)
    ensures
        r@ == dec_rep(n as nat),
{
    if n == 0 {
        let mut s = String::new();
        s.append(digit_str(0));
        proof {
            assert(s@ =~= dec_rep(0));
        }
        return s;
    }
    let mut ds: Vec<u64> = Vec::new();
    let mut m: u64 = n;
    while m > 0
        invariant
            forall|k: int| 0 <= k < ds@.len() ==> #[trigger] ds@[k] < 10,
            m > 0 ==> dec_rep(n as nat) == if ds@.len() == 0 {
                dec_rep(m as nat)
            } else {
                dec_rep(m as nat) + rev_chars(ds@)
            },
            m == 0 ==> ds@.len() > 0 && dec_rep(n as nat) == rev_chars(ds@),
        decreases m,
    {
        let d: u64 = m % 10;
        let next: u64 = m / 10;
        let ghost old_ds = ds@;
        ds.push(d);
        proof {
            assert(rev_chars(ds@) =~= seq![digit_char(d as int)] + rev_chars(old_ds));
            if m >= 10 {
                assert(dec_rep(m as nat) == dec_rep((m as nat) / 10) + seq![
                    digit_char(((m as nat) % 10) as int),
                ]);
                assert(next >= 1);
                if old_ds.len() > 0 {
                    assert(dec_rep(next as nat) + rev_chars(ds@) =~= (dec_rep(next as nat) + seq![
                        digit_char(d as int),
                    ]) + rev_chars(old_ds));
                } else {
                    assert(dec_rep(next as nat) + rev_chars(ds@) =~= dec_rep(next as nat) + seq![
                        digit_char(d as int),
                    ]);
                }
            } else {
                vstd::arithmetic::div_mod::lemma_small_mod(m as nat, 10);
                vstd::arithmetic::div_mod::lemma_basic_div(m as int, 10);
                assert(d == m && next == 0);
                assert(dec_rep(m as nat) == seq![digit_char(m as int)]);
                if old_ds.len() > 0 {
                    assert(rev_chars(ds@) =~= dec_rep(m as nat) + rev_chars(old_ds));
                } else {
                    assert(rev_chars(ds@) =~= dec_rep(m as nat));
                }
            }
        }
        m = next;
    }
    let mut s = String::new();
    let mut i: usize = ds.len();
    while i > 0
        invariant
            i <= ds@.len(),
            forall|k: int| 0 <= k < ds@.len() ==> #[trigger] ds@[k] < 10,
            s@ =~= rev_chars(ds@).take(ds@.len() - i),
        decreases i,
    {
        i = i - 1;
        let piece = digit_str(ds[i]);
        s.append(piece);
        proof {
            assert(s@ =~= rev_chars(ds@).take(ds@.len() - i));
        }
    }
    proof {
        assert(s@ =~= rev_chars(ds@));
    }
    s
}

/// Renders a signed number in decimal, with a leading minus sign when
/// negative.
pub fn i64_to_string(n: i64) -> (r: String)
    ensures
        r@ == dec_rep_signed(n as int),
{
    if n >= 0 {
        u64_to_string(n as u64)
    } else {
        let mag: u64 = (-(n as i128)) as u64;
        let tail = u64_to_string(mag);
        let mut s = String::new();
        proof {
            reveal_strlit("-");
        }
        s.append("-");
        s.append(tail.as_str());
        proof {
            assert(s@ =~= seq!['-'] + dec_rep(mag as nat));
        }
        s
    }
}

/// Parses a nonempty all-digit string into a number, rejecting anything
/// else and values beyond `u32::MAX`.
pub fn parse_u32(s: &str) -> (r: Option<u32>)
    ensures
        r is Some <==> valid_unsigned_literal(s@) && dec_val(s@) <= u32::MAX,
        r is Some ==> r->0 == dec_val(s@),
{
    let n = s.unicode_len();
    if n == 0 {
        return None;
    }
    let mut acc: u64 = 0;
    let mut i: usize = 0;
    while i < n
        invariant
            0 <= i <= n,
            n == s@.len(),
            all_digits(s@.take(i as int)),
            acc == dec_val(s@.take(i as int)),
            acc <= u32::MAX,
        decreases n - i,
    {
        let c = s.get_char(i);
        let u: u32 = c as u32;
        if u < 48 || u > 57 {
            proof {
                assert(!is_digit(s@[i as int]));
            }
            return None;
        }
        let d: u64 = (u - 48) as u64;
        proof {
            lemma_dec_val_step(s@, i as int);
            assert(all_digits(s@.take(i as int + 1)));
        }
        acc = acc * 10 + d;
        i = i + 1;
        if acc > u32::MAX as u64 {
            proof {
                if all_digits(s@) {
                    lemma_dec_val_prefix_le(s@, i as int);
                    assert(s@.take(s@.len() as int) =~= s@);
                }
            }
            return None;
        }
    }
    proof {
        assert(s@.take(n as int) =~= s@);
    }
    Some(acc as u32)
}

/// Parses a signed decimal literal (optional minus sign, then digits) into
/// an `i32`, rejecting malformed text and out-of-range values.
pub fn parse_i32(s: &str) -> (r: Option<i32>)
    ensures
        r is Some <==> valid_signed_literal(s@) && i32::MIN <= signed_val(s@) <= i32::MAX,
        r is Some ==> r->0 == signed_val(s@),
{
    let n = s.unicode_len();
    if n > 0 && s.get_char(0) == '-' {
        let rest = s.substring_char(1, n);
        proof {
            assert(rest@ =~= s@.skip(1));
        }
        match parse_u32(rest) {
            Some(v) => {
                if v <= 0x8000_0000u32 {
                    let w: i32 = (-(v as i64)) as i32;
                    Some(w)
                } else {
                    None
                }
            },
            None => {
                if n == 1 {
                    None
                } else {
                    proof {
                        if valid_signed_literal(s@) && i32::MIN <= signed_val(s@) <= i32::MAX {
                            lemma_dec_val_nonneg(s@.skip(1));
                        }
                    }
                    None
                }
            },
        }
    } else {
        match parse_u32(s) {
            Some(v) => {
                if v <= i32::MAX as u32 {
                    Some(v as i32)
                } else {
                    None
                }
            },
            None => None,
        }
    }
}

} // verus!
