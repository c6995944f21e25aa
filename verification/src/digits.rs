//! Decimal rendering of the `max-age` seconds value.
//!
//! `Cache-Control` needs the configured number of seconds written as an
//! unsigned decimal integer with no sign, padding or separators. The spec
//! function [`spec_dec`] defines that notation; [`u32_to_dec`] produces it.

use vstd::prelude::*;
use vstd::string::StringExecFns;

verus! {

/// The character standing for one decimal digit value.
pub open spec fn spec_digit(d: nat) -> char {
    if d == 0 {
        '0'
    } else if d == 1 {
        '1'
    } else if d == 2 {
        '2'
    } else if d == 3 {
        '3'
    } else if d == 4 {
        '4'
    } else if d == 5 {
        '5'
    } else if d == 6 {
        '6'
    } else if d == 7 {
        '7'
    } else if d == 8 {
        '8'
    } else {
        '9'
    }
}

/// The decimal notation of `n`: most significant digit first, no leading
/// zero except for `n == 0` itself.
pub open spec fn spec_dec(n: nat) -> Seq<char>
    decreases n,
{
    if n < 10 {
        seq![spec_digit(n)]
    } else {
        spec_dec(n / 10).push(spec_digit(n % 10))
    }
}

/// The decimal notation is never empty.
pub proof fn lemma_spec_dec_len(n: nat)
    ensures
        spec_dec(n).len() >= 1,
    decreases n,
{
    if n >= 10 {
        lemma_spec_dec_len(n / 10);
    }
}

/// Appends the single digit `d` to `s`.
fn push_digit(s: &mut String, d: u32)
    requires
        d < 10,
    ensures
        final(s)@ == old(s)@.push(spec_digit(d as nat)),
{
    proof {
        reveal_strlit("0");
        reveal_strlit("1");
        reveal_strlit("2");
        reveal_strlit("3");
        reveal_strlit("4");
        reveal_strlit("5");
        reveal_strlit("6");
        reveal_strlit("7");
        reveal_strlit("8");
        reveal_strlit("9");
    }
    if d == 0 {
        s.append("0");
    } else if d == 1 {
        s.append("1");
    } else if d == 2 {
        s.append("2");
    } else if d == 3 {
        s.append("3");
    } else if d == 4 {
        s.append("4");
    } else if d == 5 {
        s.append("5");
    } else if d == 6 {
        s.append("6");
    } else if d == 7 {
        s.append("7");
    } else if d == 8 {
        s.append("8");
    } else {
        s.append("9");
    }
    proof {
        assert(final(s)@ =~= old(s)@.push(spec_digit(d as nat)));
    }
}

/// Renders `n` as an unsigned decimal string.
pub fn u32_to_dec(n: u32) -> (r: String)
    ensures
        r@ == spec_dec(n as nat),
    decreases n,
{
    if n < 10 {
        let mut s = String::new();
        push_digit(&mut s, n);
        proof {
            assert(s@ =~= spec_dec(n as nat));
        }
        s
    } else {
        let mut s = u32_to_dec(n / 10);
        push_digit(&mut s, n % 10);
        s
    }
}

} // verus!
