//! Verified rendering of byte counts: plain decimal digits and the
//! human-readable `k`/`M`/`G` form the transfer summary lines use, with the
//! one-decimal rounding (ties to even) that floating-point formatting gives.

use vstd::prelude::*;
use vstd::string::StringExecFns;

verus! {

/// The decimal digit character for `d`.
pub open spec fn spec_digit_char(d: int) -> char
    recommends
        0 <= d <= 9,
{
    if d == 0 {
        '0'
    } else if d == 1 {
        '1'
    } else if d == 2 {
        '2'
    } else if d == 3 {
        '3'
    } else if d == 4 {
        '4'
    } else if d == 5 {
        '5'
    } else if d == 6 {
        '6'
    } else if d == 7 {
        '7'
    } else if d == 8 {
        '8'
    } else {
        '9'
    }
}

/// The decimal digit string of `n`, most significant first, no leading
/// zeros (a single `0` for zero).
pub open spec fn spec_decimal(n: nat) -> Seq<char>
    decreases n,
{
    if n < 10 {
        seq![spec_digit_char(n as int)]
    } else {
        spec_decimal(n / 10).push(spec_digit_char((n % 10) as int))
    }
}

/// `v / 1024` scaled to tenths and rounded to the nearest tenth, ties to
/// even — the value one-decimal floating-point formatting of `v / 1024.0`
/// prints, since `v / 1024.0` is exact in binary floating point.
pub open spec fn spec_scaled_tenths(v: nat) -> int {
    let n10 = v * 10;
    let q = (n10 / 1024) as int;
    let r = n10 % 1024;
    if 2 * r < 1024 {
        q
    } else if 2 * r > 1024 {
        q + 1
    } else if q % 2 == 0 {
        q
    } else {
        q + 1
    }
}

/// `v / 1024` rendered with one decimal place, e.g. `1.5`.
pub open spec fn spec_one_decimal(v: nat) -> Seq<char>
    recommends
        v >= 1024,
{
    let t = spec_scaled_tenths(v);
    spec_decimal((t / 10) as nat) + seq!['.'] + seq![spec_digit_char(t % 10)]
}

/// The human-readable size: bytes below 1k; one decimal below 10 of the
/// next unit; whole numbers up to 1024 of a unit; `G` is the last unit.
pub open spec fn spec_size_with_suffix(size: nat) -> Seq<char> {
    let k = size / 1024;
    if k == 0 {
        spec_decimal(size)
    } else if k < 10 {
        spec_one_decimal(size) + seq!['k']
    } else {
        let m = k / 1024;
        if m == 0 {
            spec_decimal(k) + seq!['k']
        } else if m < 10 {
            spec_one_decimal(k) + seq!['M']
        } else {
            let g = m / 1024;
            if g == 0 {
                spec_decimal(m) + seq!['M']
            } else if g < 10 {
                spec_one_decimal(m) + seq!['G']
            } else {
                spec_decimal(g) + seq!['G']
            }
        }
    }
}

/// Append the single digit `d` to `out`.
fn append_digit(out: &mut String, d: u64)
    requires
        d < 10,
    ensures
        final(out)@ == old(out)@ + seq![spec_digit_char(d as int)],
{
    if d == 0 {
        proof {
            reveal_strlit("0");
            assert("0"@ =~= seq![spec_digit_char(0)]);
        }
        out.append("0");
    } else if d == 1 {
        proof {
            reveal_strlit("1");
            assert("1"@ =~= seq![spec_digit_char(1)]);
        }
        out.append("1");
    } else if d == 2 {
        proof {
            reveal_strlit("2");
            assert("2"@ =~= seq![spec_digit_char(2)]);
        }
        out.append("2");
    } else if d == 3 {
        proof {
            reveal_strlit("3");
            assert("3"@ =~= seq![spec_digit_char(3)]);
        }
        out.append("3");
    } else if d == 4 {
        proof {
            reveal_strlit("4");
            assert("4"@ =~= seq![spec_digit_char(4)]);
        }
        out.append("4");
    } else if d == 5 {
        proof {
            reveal_strlit("5");
            assert("5"@ =~= seq![spec_digit_char(5)]);
        }
        out.append("5");
    } else if d == 6 {
        proof {
            reveal_strlit("6");
            assert("6"@ =~= seq![spec_digit_char(6)]);
        }
        out.append("6");
    } else if d == 7 {
        proof {
            reveal_strlit("7");
            assert("7"@ =~= seq![spec_digit_char(7)]);
        }
        out.append("7");
    } else if d == 8 {
        proof {
            reveal_strlit("8");
            assert("8"@ =~= seq![spec_digit_char(8)]);
        }
        out.append("8");
    } else {
        proof {
            reveal_strlit("9");
            assert("9"@ =~= seq![spec_digit_char(9)]);
        }
        out.append("9");
    }
}

/// Append the decimal digits of `n` to `out`.
fn append_decimal(out: &mut String, n: u64)
    ensures
        final(out)@ == old(out)@ + spec_decimal(n as nat),
    decreases n,
{
    if n >= 10 {
        append_decimal(out, n / 10);
        append_digit(out, n % 10);
        proof {
            assert(final(out)@ =~= old(out)@ + spec_decimal(n as nat));
        }
    } else {
        append_digit(out, n);
    }
}

/// The decimal digit string of `n`.
pub fn u64_to_decimal(n: u64) -> (r: String)
    ensures
        r@ == spec_decimal(n as nat),
{
    let mut out = String::new();
    append_decimal(&mut out, n);
    proof {
        assert(out@ =~= spec_decimal(n as nat));
    }
    out
}

/// Append `v / 1024` with one rounded decimal place to `out`.
fn append_one_decimal(out: &mut String, v: u64)
    requires
        v < 10486,
    ensures
        final(out)@ == old(out)@ + spec_one_decimal(v as nat),
{
    let n10 = v * 10;
    let q = n10 / 1024;
    let r = n10 % 1024;
    let t = if 2 * r < 1024 {
        q
    } else if 2 * r > 1024 {
        q + 1
    } else if q % 2 == 0 {
        q
    } else {
        q + 1
    };
    assert(t == spec_scaled_tenths(v as nat));
    append_decimal(out, t / 10);
    proof {
        reveal_strlit(".");
        assert("."@ =~= seq!['.']);
    }
    out.append(".");
    append_digit(out, t % 10);
    proof {
        assert(final(out)@ =~= old(out)@ + spec_one_decimal(v as nat));
    }
}

/// The human-readable rendering of a byte count, as the transfer summary
/// lines print it: `617`, `1.5k`, `272k`, `2.0M`, `12G`.
pub fn size_with_suffix(size: u64) -> (r: String)
    ensures
        r@ == spec_size_with_suffix(size as nat),
{
    let mut out = String::new();
    let k = size / 1024;
    if k == 0 {
        append_decimal(&mut out, size);
    } else if k < 10 {
        append_one_decimal(&mut out, size);
        proof {
            reveal_strlit("k");
            assert("k"@ =~= seq!['k']);
        }
        out.append("k");
    } else {
        let m = k / 1024;
        if m == 0 {
            append_decimal(&mut out, k);
            proof {
                reveal_strlit("k");
                assert("k"@ =~= seq!['k']);
            }
            out.append("k");
        } else if m < 10 {
            append_one_decimal(&mut out, k);
            proof {
                reveal_strlit("M");
                assert("M"@ =~= seq!['M']);
            }
            out.append("M");
        } else {
            let g = m / 1024;
            if g == 0 {
                append_decimal(&mut out, m);
                proof {
                    reveal_strlit("M");
                    assert("M"@ =~= seq!['M']);
                }
                out.append("M");
            } else if g < 10 {
                append_one_decimal(&mut out, m);
                proof {
                    reveal_strlit("G");
                    assert("G"@ =~= seq!['G']);
                }
                out.append("G");
            } else {
                append_decimal(&mut out, g);
                proof {
                    reveal_strlit("G");
                    assert("G"@ =~= seq!['G']);
                }
                out.append("G");
            }
        }
    }
    proof {
        assert(out@ =~= spec_size_with_suffix(size as nat));
    }
    out
}

} // verus!
