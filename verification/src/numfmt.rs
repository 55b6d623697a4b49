//! Decimal rendering of counters, used by diagnostics.

use vstd::prelude::*;
use vstd::string::StrSliceExecFns;
use vstd::string::StringExecFns;

verus! {

/// The character for one decimal digit value.
pub open spec fn decimal_digit(d: nat) -> char
    recommends
        d < 10,
{
    "0123456789"@[d as int]
}

/// The decimal digits of `n`, most significant first, with no leading zeros
/// except for `n == 0` itself.
pub open spec fn spec_decimal(n: nat) -> Seq<char>
    decreases n,
{
    if n < 10 {
        seq![decimal_digit(n)]
    } else {
        spec_decimal(n / 10).push(decimal_digit(n % 10))
    }
}

/// Renders `n` in decimal.
pub fn u32_decimal(n: u32) -> (s: String)
    ensures
        s@ == spec_decimal(n as nat),
    decreases n,
{
    let table = "0123456789";
    proof {
        reveal_strlit("0123456789");
    }
    if n < 10 {
        let d = table.substring_char(n as usize, n as usize + 1);
        let s = String::from_str(d);
        proof {
            assert(s@ =~= seq![decimal_digit(n as nat)]);
        }
        s
    } else {
        let mut s = u32_decimal(n / 10);
        let d = table.substring_char((n % 10) as usize, (n % 10) as usize + 1);
        s.append(d);
        proof {
            assert(s@ =~= spec_decimal((n / 10) as nat).push(decimal_digit((n % 10) as nat)));
        }
        s
    }
}

} // verus!
