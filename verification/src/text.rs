//! Decimal numerals, for the paths that the site builds.

use vstd::prelude::*;

verus! {

/// The decimal digit for a value below 10.
pub open spec fn digit_char(d: int) -> char {
    (48 + d) as char
}

/// The decimal numeral of a natural number, without leading zeros.
pub open spec fn natural_numeral(n: nat) -> Seq<char>
    decreases n,
{
    if n < 10 {
        seq![digit_char(n as int)]
    } else {
        natural_numeral(n / 10).push(digit_char((n % 10) as int))
    }
}

/// The decimal numeral of an integer: a minus sign before the numeral of
/// its absolute value if it is negative.
pub open spec fn numeral(n: int) -> Seq<char> {
    if n < 0 {
        seq!['-'] + natural_numeral((-n) as nat)
    } else {
        natural_numeral(n as nat)
    }
}

/// The digits of `s` from the last to the first.
pub open spec fn reversed(s: Seq<char>) -> Seq<char> {
    Seq::new(s.len(), |i: int| s[s.len() - 1 - i])
}

/// Appends to `out` the numeral of `n`.
fn push_natural(out: &mut String, n: u64)
    ensures
        final(out)@ == old(out)@ + natural_numeral(n as nat),
{
    // The digits come out lowest first; they are kept and then pushed in
    // reverse.
    let mut low_first: Vec<char> = Vec::new();
    let mut rest: u64 = n;
    low_first.push((48 + (rest % 10) as u8) as char);
    rest = rest / 10;
    while rest > 0
        invariant
            low_first@.len() >= 1,
            natural_numeral(n as nat) == if rest > 0 {
                natural_numeral(rest as nat) + reversed(low_first@)
            } else {
                reversed(low_first@)
            },
        decreases rest,
    {
        let ghost before = low_first@;
        let ghost r = rest;
        low_first.push((48 + (rest % 10) as u8) as char);
        rest = rest / 10;
        proof {
            let d = digit_char((r % 10) as int);
            assert(low_first@ == before.push(d));
            assert(reversed(low_first@) =~= seq![d] + reversed(before));
            if r < 10 {
                assert(natural_numeral(r as nat) =~= seq![d]);
                assert(natural_numeral(n as nat) =~= reversed(low_first@));
            } else {
                assert(natural_numeral(r as nat) =~= natural_numeral((r / 10) as nat) + seq![d]);
                assert(natural_numeral(n as nat) =~= natural_numeral(rest as nat) + reversed(
                    low_first@,
                ));
            }
        }
    }
    let len = low_first.len();
    let mut k: usize = 0;
    while k < len
        invariant
            len == low_first@.len(),
            k <= len,
            out@ == old(out)@ + reversed(low_first@).take(k as int),
        decreases len - k,
    {
        let ghost before = out@;
        out.push(low_first[len - 1 - k]);
        proof {
            assert(reversed(low_first@).take(k + 1) =~= reversed(low_first@).take(k as int).push(
                low_first@[len - 1 - k],
            ));
            assert(out@ =~= old(out)@ + reversed(low_first@).take(k + 1));
        }
        k = k + 1;
    }
    proof {
        assert(reversed(low_first@).take(len as int) =~= reversed(low_first@));
    }
}

/// Appends to `out` the decimal numeral of `n`.
pub fn push_numeral(out: &mut String, n: i32)
    ensures
        final(out)@ == old(out)@ + numeral(n as int),
{
    if n < 0 {
        let ghost before = out@;
        out.push('-');
        let magnitude: u64 = (-(n as i64)) as u64;
        push_natural(out, magnitude);
        proof {
            assert(out@ =~= before + numeral(n as int));
        }
    } else {
        push_natural(out, n as u64);
    }
}

/// The string `prefix` followed by the decimal numeral of `n`.
pub fn numbered_path(prefix: &str, n: i32) -> (path: String)
    ensures
        path@ == prefix@ + numeral(n as int),
{
    let mut path = prefix.to_owned();
    push_numeral(&mut path, n);
    path
}

} // verus!
