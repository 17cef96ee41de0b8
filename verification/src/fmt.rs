//! Human-readable renderings of byte and item counts, over integer
//! arithmetic: a value is scaled to its unit in tenths, rounded half
//! up, and printed with one decimal digit.

use vstd::prelude::*;
use vstd::string::StringExecFns;

verus! {

/// The decimal digit character for `d`.
pub open spec fn digit_char(d: int) -> char {
    if d == 0 {
        '0'
    } else if d == 1 {
        '1'
    } else if d == 2 {
        '2'
    } else if d == 3 {
        '3'
    } else if d == 4 {
        '4'
    } else if d == 5 {
        '5'
    } else if d == 6 {
        '6'
    } else if d == 7 {
        '7'
    } else if d == 8 {
        '8'
    } else {
        '9'
    }
}

/// The decimal representation of `n`, most significant digit first,
/// without leading zeros (a single zero for 0).
pub open spec fn dec_rep(n: nat) -> Seq<char>
    decreases n,
{
    if n < 10 {
        seq![digit_char(n as int)]
    } else {
        dec_rep(n / 10).push(digit_char((n % 10) as int))
    }
}

/// `n` scaled to `unit` and rounded half up to tenths, rendered with
/// one decimal digit: the shape of `1536 / 1024` is `1.5`.
pub open spec fn scaled_rep(n: nat, unit: nat) -> Seq<char>
    recommends
        unit >= 1,
{
    let t = (10 * n + unit / 2) / unit;
    dec_rep(t / 10) + seq!['.'] + seq![digit_char((t % 10) as int)]
}

/// A byte count with a binary-unit suffix, one decimal digit for
/// kilobytes and above.
pub open spec fn fmt_bytes_rep(bytes: nat) -> Seq<char> {
    if bytes >= 1024 * 1024 * 1024 {
        scaled_rep(bytes, 1024 * 1024 * 1024) + seq![' ', 'G', 'B']
    } else if bytes >= 1024 * 1024 {
        scaled_rep(bytes, 1024 * 1024) + seq![' ', 'M', 'B']
    } else if bytes >= 1024 {
        scaled_rep(bytes, 1024) + seq![' ', 'K', 'B']
    } else {
        dec_rep(bytes) + seq![' ', 'B']
    }
}

/// An item count abbreviated with a thousands suffix, one decimal
/// digit once a suffix applies.
pub open spec fn fmt_thousands_rep(n: nat) -> Seq<char> {
    if n >= 1000000 {
        scaled_rep(n, 1000000) + seq!['M']
    } else if n >= 1000 {
        scaled_rep(n, 1000) + seq!['K']
    } else {
        dec_rep(n)
    }
}

fn digit_str(d: u64) -> (r: &'static str)
    requires
        d < 10,
    ensures
        r@ == seq![digit_char(d as int)],
{
    let r: &'static str = match d {
        0 => "0",
        1 => "1",
        2 => "2",
        3 => "3",
        4 => "4",
        5 => "5",
        6 => "6",
        7 => "7",
        8 => "8",
        _ => "9",
    };
    proof {
        reveal_strlit("0");
        reveal_strlit("1");
        reveal_strlit("2");
        reveal_strlit("3");
        reveal_strlit("4");
        reveal_strlit("5");
        reveal_strlit("6");
        reveal_strlit("7");
        reveal_strlit("8");
        reveal_strlit("9");
        assert(r@ =~= seq![digit_char(d as int)]);
    }
    r
}

/// Renders `n` in decimal.
pub fn to_decimal(n: u128) -> (r: String)
    ensures
        r@ == dec_rep(n as nat),
    decreases n,
{
    if n < 10 {
        String::from_str(digit_str(n as u64))
    } else {
        let mut s = to_decimal(n / 10);
        s.append(digit_str((n % 10) as u64));
        proof {
            assert(dec_rep((n as nat) / 10).push(digit_char((n as int) % 10)) =~= dec_rep(
                (n as nat) / 10,
            ) + seq![digit_char((n as int) % 10)]);
        }
        s
    }
}

fn scaled_string(n: u128, unit: u128) -> (r: String)
    requires
        1 <= unit <= u64::MAX,
        n <= u64::MAX,
    ensures
        r@ == scaled_rep(n as nat, unit as nat),
{
    let t = (10 * n + unit / 2) / unit;
    let mut s = to_decimal(t / 10);
    s.append(".");
    s.append(digit_str((t % 10) as u64));
    proof {
        reveal_strlit(".");
        assert("."@ =~= seq!['.']);
        assert(s@ =~= scaled_rep(n as nat, unit as nat));
    }
    s
}

/// Renders a byte count for display: `1.5 GB`, `12.0 MB`, `3.4 KB`,
/// or `512 B`.
pub fn fmt_bytes(bytes: u64) -> (r: String)
    ensures
        r@ == fmt_bytes_rep(bytes as nat),
{
    let kb: u64 = 1024;
    let mb: u64 = 1024 * 1024;
    let gb: u64 = 1024 * 1024 * 1024;
    if bytes >= gb {
        let mut s = scaled_string(bytes as u128, gb as u128);
        s.append(" GB");
        proof {
            reveal_strlit(" GB");
            assert(" GB"@ =~= seq![' ', 'G', 'B']);
            assert(s@ =~= fmt_bytes_rep(bytes as nat));
        }
        s
    } else if bytes >= mb {
        let mut s = scaled_string(bytes as u128, mb as u128);
        s.append(" MB");
        proof {
            reveal_strlit(" MB");
            assert(" MB"@ =~= seq![' ', 'M', 'B']);
            assert(s@ =~= fmt_bytes_rep(bytes as nat));
        }
        s
    } else if bytes >= kb {
        let mut s = scaled_string(bytes as u128, kb as u128);
        s.append(" KB");
        proof {
            reveal_strlit(" KB");
            assert(" KB"@ =~= seq![' ', 'K', 'B']);
            assert(s@ =~= fmt_bytes_rep(bytes as nat));
        }
        s
    } else {
        let mut s = to_decimal(bytes as u128);
        s.append(" B");
        proof {
            reveal_strlit(" B");
            assert(" B"@ =~= seq![' ', 'B']);
            assert(s@ =~= fmt_bytes_rep(bytes as nat));
        }
        s
    }
}

/// Renders an item count for display: `1.2M`, `3.4K`, or the plain
/// number under a thousand.
pub fn fmt_thousands(n: usize) -> (r: String)
    ensures
        r@ == fmt_thousands_rep(n as nat),
{
    if n >= 1000000 {
        let mut s = scaled_string(n as u128, 1000000);
        s.append("M");
        proof {
            reveal_strlit("M");
            assert("M"@ =~= seq!['M']);
            assert(s@ =~= fmt_thousands_rep(n as nat));
        }
        s
    } else if n >= 1000 {
        let mut s = scaled_string(n as u128, 1000);
        s.append("K");
        proof {
            reveal_strlit("K");
            assert("K"@ =~= seq!['K']);
            assert(s@ =~= fmt_thousands_rep(n as nat));
        }
        s
    } else {
        to_decimal(n as u128)
    }
}

} // verus!
