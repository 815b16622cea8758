//! Decimal rendering and parsing of 64-bit identifiers.
//!
//! The link between a source message and its relayed copy is stored as plain
//! text, so the identifiers must be written out as decimal digit strings and
//! read back. Both directions are verified against one spec-level notion of
//! "the digits of n", and a round-trip lemma ties them together.

use vstd::prelude::*;
use vstd::string::StrSliceExecFns;
use vstd::string::StringExecFns;

verus! {

/// Is `c` one of the ten ASCII decimal digits?
pub open spec fn is_dec_digit(c: char) -> bool {
    '0' <= c && c <= '9'
}

/// The numeric value of a digit character.
pub open spec fn digit_val(c: char) -> nat {
    (c as nat - '0' as nat) as nat
}

/// The digit character for a value below ten.
pub open spec fn digit_char(d: nat) -> char {
    ((d + '0' as nat) as u8) as char
}

/// The decimal digits of `n`, most significant first, with no leading zeros
/// (and the single digit `0` for zero itself).
pub open spec fn dec_digits(n: nat) -> Seq<char>
    decreases n,
{
    if n < 10 {
        seq![digit_char(n)]
    } else {
        dec_digits(n / 10).push(digit_char(n % 10))
    }
}

/// The value of a digit string, read most significant first.
pub open spec fn dec_val(s: Seq<char>) -> nat
    decreases s.len(),
{
    if s.len() == 0 {
        0
    } else {
        dec_val(s.drop_last()) * 10 + digit_val(s.last())
    }
}

/// Does `s` consist of decimal digits only?
pub open spec fn all_dec_digits(s: Seq<char>) -> bool {
    forall|i: int| 0 <= i < s.len() ==> is_dec_digit(#[trigger] s[i])
}

/// Is `s` a digit string that denotes a value fitting in 64 bits?
pub open spec fn valid_u64_digits(s: Seq<char>) -> bool {
    &&& s.len() > 0
    &&& all_dec_digits(s)
    &&& dec_val(s) <= u64::MAX
}

/// The digits of any number are digits, there is at least one of them, and
/// reading them back yields the number.
pub proof fn lemma_dec_digits_value(n: nat)
    ensures
        dec_digits(n).len() > 0,
        all_dec_digits(dec_digits(n)),
        dec_val(dec_digits(n)) == n,
    decreases n,
{
    if n < 10 {
        assert(dec_digits(n) =~= seq![digit_char(n)]);
        assert(dec_digits(n).drop_last() =~= Seq::<char>::empty());
        assert(is_dec_digit(digit_char(n)));
        assert(digit_val(digit_char(n)) == n);
        assert(dec_val(Seq::<char>::empty()) == 0);
        assert(dec_val(dec_digits(n)) == dec_val(dec_digits(n).drop_last()) * 10 + digit_val(
            dec_digits(n).last(),
        ));
        assert(dec_digits(n).last() == digit_char(n));
    } else {
        lemma_dec_digits_value(n / 10);
        let pre = dec_digits(n / 10);
        let s = pre.push(digit_char(n % 10));
        assert(s.drop_last() =~= pre);
        assert(s.last() == digit_char(n % 10));
        assert(digit_val(digit_char(n % 10)) == n % 10);
        assert(dec_val(s) == (n / 10) * 10 + n % 10);
        assert((n / 10) * 10 + n % 10 == n) by (nonlinear_arith);
        assert forall|i: int| 0 <= i < s.len() implies is_dec_digit(#[trigger] s[i]) by {
            if i < pre.len() {
                assert(s[i] == pre[i]);
            }
        }
    }
}

/// A colon is not a digit, so digit strings never contain one.
pub proof fn lemma_digits_no_colon(n: nat)
    ensures
        forall|i: int| 0 <= i < dec_digits(n).len() ==> #[trigger] dec_digits(n)[i] != ':',
{
    lemma_dec_digits_value(n);
    assert forall|i: int| 0 <= i < dec_digits(n).len() implies #[trigger] dec_digits(n)[i]
        != ':' by {
        assert(is_dec_digit(dec_digits(n)[i]));
    }
}

/// Growing a digit string on the right can only grow its value.
pub proof fn lemma_dec_val_monotonic(s: Seq<char>, t: Seq<char>)
    requires
        s.len() <= t.len(),
        forall|i: int| 0 <= i < s.len() ==> s[i] == t[i],
    ensures
        dec_val(s) <= dec_val(t),
    decreases t.len(),
{
    if t.len() > s.len() {
        let t0 = t.drop_last();
        lemma_dec_val_monotonic(s, t0);
        assert(dec_val(t0) * 10 >= dec_val(t0)) by (nonlinear_arith);
    } else {
        assert(s =~= t);
    }
}

/// The digit character of a value below ten, as an executable step.
fn digit_to_str(d: u64) -> (s: &'static str)
    requires
        d < 10,
    ensures
        s@ =~= seq![digit_char(d as nat)],
{
    proof {
        reveal_strlit("0");
        reveal_strlit("1");
        reveal_strlit("2");
        reveal_strlit("3");
        reveal_strlit("4");
        reveal_strlit("5");
        reveal_strlit("6");
        reveal_strlit("7");
        reveal_strlit("8");
        reveal_strlit("9");
    }
    if d == 0 {
        "0"
    } else if d == 1 {
        "1"
    } else if d == 2 {
        "2"
    } else if d == 3 {
        "3"
    } else if d == 4 {
        "4"
    } else if d == 5 {
        "5"
    } else if d == 6 {
        "6"
    } else if d == 7 {
        "7"
    } else if d == 8 {
        "8"
    } else {
        "9"
    }
}

/// The digit characters of `r`, last extracted digit first.
spec fn rev_digit_chars(r: Seq<u64>) -> Seq<char> {
    Seq::new(r.len(), |j: int| digit_char(r[r.len() - 1 - j] as nat))
}

/// Render `n` as its decimal digit string.
pub fn u64_to_string(n: u64) -> (s: String)
    ensures
        s@ == dec_digits(n as nat),
{
    let mut rev: Vec<u64> = Vec::new();
    rev.push(n % 10);
    let mut m: u64 = n / 10;
    while m > 0
        invariant
            rev.len() > 0,
            forall|i: int| 0 <= i < rev.len() ==> #[trigger] rev@[i] < 10,
            dec_digits(n as nat) =~= (if m > 0 {
                dec_digits(m as nat)
            } else {
                Seq::<char>::empty()
            }) + rev_digit_chars(rev@),
        decreases m,
    {
        let ghost old_rev = rev@;
        let ghost old_m = m as nat;
        rev.push(m % 10);
        m = m / 10;
        proof {
            assert(rev_digit_chars(rev@) =~= seq![digit_char(old_m % 10)] + rev_digit_chars(
                old_rev,
            ));
            if old_m >= 10 {
                assert(dec_digits(old_m) =~= dec_digits(old_m / 10) + seq![
                    digit_char(old_m % 10),
                ]);
            } else {
                assert(dec_digits(old_m) =~= seq![digit_char(old_m % 10)]);
            }
            assert(dec_digits(n as nat) =~= (if m > 0 {
                dec_digits(m as nat)
            } else {
                Seq::<char>::empty()
            }) + rev_digit_chars(rev@));
        }
    }
    let mut s = String::new();
    let mut i: usize = rev.len();
    while i > 0
        invariant
            i <= rev.len(),
            forall|j: int| 0 <= j < rev.len() ==> #[trigger] rev@[j] < 10,
            s@ =~= rev_digit_chars(rev@).take(rev.len() - i),
        decreases i,
    {
        i = i - 1;
        let d = rev[i];
        s.append(digit_to_str(d));
        proof {
            assert(s@ =~= rev_digit_chars(rev@).take(rev@.len() - i));
        }
    }
    proof {
        assert(rev_digit_chars(rev@).take(rev@.len() as int) =~= rev_digit_chars(rev@));
        assert(s@ =~= dec_digits(n as nat));
    }
    s
}

/// Parse the characters of `s` in `[from, to)` as an unsigned 64-bit decimal
/// number: defined exactly when the range is a nonempty digit string whose
/// value fits.
pub fn parse_u64_range(s: &str, from: usize, to: usize) -> (r: Option<u64>)
    requires
        from <= to <= s@.len(),
    ensures
        r is Some <==> valid_u64_digits(s@.subrange(from as int, to as int)),
        r is Some ==> r->0 == dec_val(s@.subrange(from as int, to as int)),
{
    let ghost whole = s@.subrange(from as int, to as int);
    if from == to {
        return None;
    }
    let mut acc: u64 = 0;
    let mut i: usize = from;
    while i < to
        invariant
            from <= i <= to <= s@.len(),
            whole == s@.subrange(from as int, to as int),
            all_dec_digits(s@.subrange(from as int, i as int)),
            acc == dec_val(s@.subrange(from as int, i as int)),
        decreases to - i,
    {
        let c = s.get_char(i);
        if c < '0' || c > '9' {
            proof {
                assert(whole[i - from] == c);
                assert(!is_dec_digit(whole[i - from]));
            }
            return None;
        }
        let d: u64 = (c as u32 as u64) - 48;
        let ghost pre = s@.subrange(from as int, i as int);
        let ghost ext = s@.subrange(from as int, i + 1 as int);
        proof {
            assert(ext.drop_last() =~= pre);
            assert(ext.last() == c);
            assert('0' as nat == 48);
            assert(digit_val(c) == d);
            assert(dec_val(ext) == acc * 10 + d);
        }
        if acc > (u64::MAX - d) / 10 {
            // The prefix already denotes more than fits in 64 bits, so the
            // whole range does too.
            proof {
                assert(acc * 10 + d > u64::MAX) by (nonlinear_arith)
                    requires
                        acc > (u64::MAX - d) / 10,
                        d < 10,
                ;
                lemma_dec_val_monotonic(ext, whole);
            }
            return None;
        }
        proof {
            assert(acc * 10 + d <= u64::MAX) by (nonlinear_arith)
                requires
                    acc <= (u64::MAX - d) / 10,
                    d < 10,
            ;
        }
        acc = acc * 10 + d;
        i = i + 1;
    }
    proof {
        assert(s@.subrange(from as int, i as int) =~= whole);
    }
    Some(acc)
}

/// Render-then-parse is the identity on 64-bit numbers.
pub proof fn lemma_digits_round_trip(n: u64)
    ensures
        valid_u64_digits(dec_digits(n as nat)),
        dec_val(dec_digits(n as nat)) == n,
{
    lemma_dec_digits_value(n as nat);
}

} // verus!
