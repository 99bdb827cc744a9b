//! Directory-size estimation and human-readable size formatting.
//!
//! Sizes are summed from the file entries a traversal produced; the sum
//! saturates at `u64::MAX` instead of overflowing. Formatting scales by
//! powers of 1024 and always renders two decimal places.

use vstd::prelude::*;
use vstd::string::StringExecFns;
use crate::fsview::{FsEntry, walk_entries};

verus! {

pub const KILO: u64 = 1024;
pub const MEGA: u64 = 1048576;
pub const GIGA: u64 = 1073741824;
pub const TERA: u64 = 1099511627776;
pub const PETA: u64 = 1125899906842624;
pub const EXA: u64 = 1152921504606846976;

/// The character for a single decimal digit.
pub open spec fn spec_digit_char(d: nat) -> char {
    if d == 0 {
        '0'
    } else if d == 1 {
        '1'
    } else if d == 2 {
        '2'
    } else if d == 3 {
        '3'
    } else if d == 4 {
        '4'
    } else if d == 5 {
        '5'
    } else if d == 6 {
        '6'
    } else if d == 7 {
        '7'
    } else if d == 8 {
        '8'
    } else {
        '9'
    }
}

/// The decimal rendering of `n`, most significant digit first, with no
/// leading zeros (except for `n == 0` itself).
pub open spec fn spec_dec(n: nat) -> Seq<char>
    decreases n,
{
    if n < 10 {
        seq![spec_digit_char(n)]
    } else {
        spec_dec(n / 10) + seq![spec_digit_char(n % 10)]
    }
}

/// A hundredths count rendered as exactly two digits.
pub open spec fn spec_two_digits(f: nat) -> Seq<char>
    recommends
        f < 100,
{
    if f < 10 {
        seq!['0'] + spec_dec(f)
    } else {
        spec_dec(f)
    }
}

/// `bytes` scaled down by `scale` and rendered as "<whole>.<two digits>".
pub open spec fn spec_scaled(bytes: nat, scale: nat) -> Seq<char>
    recommends
        scale > 0,
{
    let hundredths = bytes * 100 / scale;
    spec_dec(hundredths / 100) + seq!['.'] + spec_two_digits(hundredths % 100)
}

/// The human-readable rendering of a byte count: plain bytes below 1024,
/// otherwise the largest 1024-based unit not exceeding the count, with two
/// decimal places.
pub open spec fn spec_format_size(bytes: nat) -> Seq<char> {
    if bytes < KILO {
        spec_dec(bytes) + " B"@
    } else if bytes < MEGA {
        spec_scaled(bytes, KILO as nat) + " KB"@
    } else if bytes < GIGA {
        spec_scaled(bytes, MEGA as nat) + " MB"@
    } else if bytes < TERA {
        spec_scaled(bytes, GIGA as nat) + " GB"@
    } else if bytes < PETA {
        spec_scaled(bytes, TERA as nat) + " TB"@
    } else if bytes < EXA {
        spec_scaled(bytes, PETA as nat) + " PB"@
    } else {
        spec_scaled(bytes, EXA as nat) + " EB"@
    }
}

/// The one-character string for a decimal digit.
fn digit_str(d: u64) -> (r: &'static str)
    requires
        d < 10,
    ensures
        r@ == seq![spec_digit_char(d as nat)],
{
    proof {
        reveal_strlit("0");
        reveal_strlit("1");
        reveal_strlit("2");
        reveal_strlit("3");
        reveal_strlit("4");
        reveal_strlit("5");
        reveal_strlit("6");
        reveal_strlit("7");
        reveal_strlit("8");
        reveal_strlit("9");
    }
    let r = if d == 0 {
        "0"
    } else if d == 1 {
        "1"
    } else if d == 2 {
        "2"
    } else if d == 3 {
        "3"
    } else if d == 4 {
        "4"
    } else if d == 5 {
        "5"
    } else if d == 6 {
        "6"
    } else if d == 7 {
        "7"
    } else if d == 8 {
        "8"
    } else {
        "9"
    };
    proof {
        assert(r@ =~= seq![spec_digit_char(d as nat)]);
    }
    r
}

/// Renders `n` in decimal.
pub fn u64_to_dec(n: u64) -> (r: String)
    ensures
        r@ == spec_dec(n as nat),
    decreases n,
{
    if n < 10 {
        digit_str(n).to_owned()
    } else {
        let quotient = n / 10;
        let digit = n % 10;
        let prefix = u64_to_dec(quotient);
        let r = prefix.concat(digit_str(digit));
        proof {
            assert(r@ =~= spec_dec(n as nat));
        }
        r
    }
}

/// Renders `bytes / scale` with two decimal places, rounding down.
fn scaled_string(bytes: u64, scale: u64) -> (r: String)
    requires
        scale >= 100,
    ensures
        r@ == spec_scaled(bytes as nat, scale as nat),
{
    proof {
        reveal_strlit(".");
        assert((bytes as int) * 100 / (scale as int) <= bytes as int) by (nonlinear_arith)
            requires
                scale >= 100,
                bytes >= 0,
        ;
    }
    let hundredths_wide: u128 = (bytes as u128) * 100 / (scale as u128);
    let hundredths: u64 = hundredths_wide as u64;
    let whole = u64_to_dec(hundredths / 100);
    let frac: u64 = hundredths % 100;
    let frac_str = if frac < 10 {
        let padded = "0".to_owned().concat(u64_to_dec(frac).as_str());
        proof {
            reveal_strlit("0");
            assert(padded@ =~= spec_two_digits(frac as nat));
        }
        padded
    } else {
        u64_to_dec(frac)
    };
    let r = whole.concat(".").concat(frac_str.as_str());
    proof {
        assert(r@ =~= spec_scaled(bytes as nat, scale as nat));
    }
    r
}

/// Formats a byte count for reporting, e.g. `1536` as `"1.50 KB"`.
pub fn format_size(bytes: u64) -> (r: String)
    ensures
        r@ == spec_format_size(bytes as nat),
{
    let r = if bytes < KILO {
        u64_to_dec(bytes).concat(" B")
    } else if bytes < MEGA {
        scaled_string(bytes, KILO).concat(" KB")
    } else if bytes < GIGA {
        scaled_string(bytes, MEGA).concat(" MB")
    } else if bytes < TERA {
        scaled_string(bytes, GIGA).concat(" GB")
    } else if bytes < PETA {
        scaled_string(bytes, TERA).concat(" TB")
    } else if bytes < EXA {
        scaled_string(bytes, PETA).concat(" PB")
    } else {
        scaled_string(bytes, EXA).concat(" EB")
    };
    r
}

/// The total size of the regular files among `entries`, as an unbounded
/// integer.
pub open spec fn spec_total_file_size(entries: Seq<FsEntry>) -> int
    decreases entries.len(),
{
    if entries.len() == 0 {
        0
    } else {
        spec_total_file_size(entries.drop_last()) + if entries.last().is_file {
            entries.last().size as int
        } else {
            0
        }
    }
}

/// An integer capped at `u64::MAX`, the value a saturating sum yields.
pub open spec fn spec_capped_u64(v: int) -> int {
    if v <= u64::MAX as int {
        v
    } else {
        u64::MAX as int
    }
}

/// Sums the sizes of the regular-file entries, saturating at `u64::MAX`.
pub fn sum_file_sizes(entries: &Vec<FsEntry>) -> (r: u64)
    ensures
        r as int == spec_capped_u64(spec_total_file_size(entries@)),
{
    let mut acc: u64 = 0;
    let mut i: usize = 0;
    while i < entries.len()
        invariant
            i <= entries@.len(),
            acc as int == spec_capped_u64(spec_total_file_size(entries@.take(i as int))),
        decreases entries@.len() - i,
    {
        proof {
            assert(entries@.take(i + 1 as int).drop_last() =~= entries@.take(i as int));
            assert(entries@.take(i + 1 as int).last() == entries@[i as int]);
        }
        if entries[i].is_file {
            let sz = entries[i].size;
            if u64::MAX - acc < sz {
                acc = u64::MAX;
            } else {
                acc = acc + sz;
            }
        }
        i = i + 1;
    }
    proof {
        assert(entries@.take(entries@.len() as int) =~= entries@);
    }
    acc
}

/// Best-effort size of the directory tree under `path`: the saturating sum
/// of the sizes of every regular file a traversal could read. A path that
/// cannot be traversed at all contributes nothing and yields `0`.
pub fn calculate_dir_size(path: &str) -> (r: u64)
{
    let entries = walk_entries(path);
    sum_file_sizes(&entries)
}

} // verus!
