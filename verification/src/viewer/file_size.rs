//! The size of a file in words: a number with one decimal and a binary unit.

use crate::textfmt::{decimal, push_decimal};
use vstd::prelude::*;
use vstd::string::*;

verus! {

/// `n` rounded to a multiple of `step`, to the nearer one, and to the even
/// one of two that are equally near.
pub open spec fn rounded_to_step(n: nat, step: nat) -> nat {
    let q = n / step;
    let r = n % step;
    if 2 * r > step || (2 * r == step && q % 2 == 1) {
        (q + 1) * step
    } else {
        q * step
    }
}

/// A size as a double-precision number holds it: with its 53 leading bits,
/// rounded to the nearest such number.
pub open spec fn as_double(n: nat) -> nat {
    if n < 0x20_0000_0000_0000 {
        n
    } else if n < 0x40_0000_0000_0000 {
        rounded_to_step(n, 2)
    } else if n < 0x80_0000_0000_0000 {
        rounded_to_step(n, 4)
    } else if n < 0x100_0000_0000_0000 {
        rounded_to_step(n, 8)
    } else if n < 0x200_0000_0000_0000 {
        rounded_to_step(n, 16)
    } else if n < 0x400_0000_0000_0000 {
        rounded_to_step(n, 32)
    } else if n < 0x800_0000_0000_0000 {
        rounded_to_step(n, 64)
    } else if n < 0x1000_0000_0000_0000 {
        rounded_to_step(n, 128)
    } else if n < 0x2000_0000_0000_0000 {
        rounded_to_step(n, 256)
    } else if n < 0x4000_0000_0000_0000 {
        rounded_to_step(n, 512)
    } else if n < 0x8000_0000_0000_0000 {
        rounded_to_step(n, 1024)
    } else {
        rounded_to_step(n, 2048)
    }
}

/// The index of the unit of a size: bytes below 1024, then kilobytes,
/// megabytes, gigabytes, and terabytes from 1024 to the fourth on.
pub open spec fn unit_index(bytes: u64) -> nat {
    if bytes < 1024 {
        0
    } else if bytes < 1048576 {
        1
    } else if bytes < 1073741824 {
        2
    } else if bytes < 1099511627776 {
        3
    } else {
        4
    }
}

/// Number of bytes in a unit.
pub open spec fn unit_size(index: nat) -> nat {
    if index == 0 {
        1
    } else if index == 1 {
        1024
    } else if index == 2 {
        1048576
    } else if index == 3 {
        1073741824
    } else {
        1099511627776
    }
}

/// The name of a unit.
pub open spec fn unit_name(index: nat) -> Seq<char> {
    if index == 0 {
        "B"@
    } else if index == 1 {
        "KB"@
    } else if index == 2 {
        "MB"@
    } else if index == 3 {
        "GB"@
    } else {
        "TB"@
    }
}

/// A size in tenths of a unit, rounded to the nearest tenth, and to the
/// even one of two that are equally near.
pub open spec fn tenths(n: nat, unit: nat) -> nat {
    rounded_to_step(10 * n, unit) / unit
}

/// A size in words: `0 B`, a number of bytes below 1024, and from there on
/// a number with one decimal and the largest unit that the size reaches.
pub open spec fn file_size_text(bytes: u64) -> Seq<char> {
    let index = unit_index(bytes);
    if index == 0 {
        decimal(bytes as nat) + " B"@
    } else {
        let t = tenths(as_double(bytes as nat), unit_size(index));
        decimal(t / 10) + seq!['.'] + decimal(t % 10) + seq![' '] + unit_name(index)
    }
}

/// `n` divided by `step` and rounded to the nearest whole number, to the
/// even one of two that are equally near.
fn divide_rounded(n: u128, step: u128) -> (q: u128)
    requires
        0 < step <= 0x100_0000_0000,
        n <= 0x1000_0000_0000_0000_0000,
    ensures
        q * step == rounded_to_step(n as nat, step as nat),
        q == rounded_to_step(n as nat, step as nat) / (step as nat),
        q <= n + 1,
{
    let q = n / step;
    let r = n % step;
    proof {
        assert(r < step && q <= n && q * step + r == n) by (nonlinear_arith)
            requires
                q == n / step,
                r == n % step,
                step > 0,
        ;
    }
    let up = 2 * r > step || (2 * r == step && q % 2 == 1);
    let result = if up {
        q + 1
    } else {
        q
    };
    proof {
        let a = result as int;
        let d = step as int;
        assert((a * d) / d == a) by (nonlinear_arith)
            requires
                d > 0,
                a >= 0,
        ;
        assert(a * d == rounded_to_step(n as nat, step as nat));
    }
    result
}

fn to_double(bytes: u64) -> (n: u128)
    ensures
        n == as_double(bytes as nat),
        n <= 0x1_0000_0000_0000_0000,
{
    let b = bytes as u128;
    let step: u128 = if bytes < 0x20_0000_0000_0000 {
        1
    } else if bytes < 0x40_0000_0000_0000 {
        2
    } else if bytes < 0x80_0000_0000_0000 {
        4
    } else if bytes < 0x100_0000_0000_0000 {
        8
    } else if bytes < 0x200_0000_0000_0000 {
        16
    } else if bytes < 0x400_0000_0000_0000 {
        32
    } else if bytes < 0x800_0000_0000_0000 {
        64
    } else if bytes < 0x1000_0000_0000_0000 {
        128
    } else if bytes < 0x2000_0000_0000_0000 {
        256
    } else if bytes < 0x4000_0000_0000_0000 {
        512
    } else if bytes < 0x8000_0000_0000_0000 {
        1024
    } else {
        2048
    };
    if step == 1 {
        return b;
    }
    let q = divide_rounded(b, step);
    proof {
        assert(q * step <= b + step) by (nonlinear_arith)
            requires
                q * step == rounded_to_step(b as nat, step as nat),
                step > 0,
                rounded_to_step(b as nat, step as nat) <= (b as nat / step as nat + 1) * step,
                (b as nat / step as nat) * step <= b,
        ;
    }
    q * step
}

/// The size of a file in words, such as `1.5 KB`.
pub fn format_file_size(bytes: u64) -> (out: String)
    ensures
        out@ == file_size_text(bytes),
{
    let mut out = String::new();
    if bytes < 1024 {
        push_decimal(&mut out, bytes);
        out.append(" B");
        return out;
    }
    let unit: u128 = if bytes < 1048576 {
        1024
    } else if bytes < 1073741824 {
        1048576
    } else if bytes < 1099511627776 {
        1073741824
    } else {
        1099511627776
    };
    let n = to_double(bytes);
    let t = divide_rounded(10 * n, unit);
    proof {
        assert(t <= 0xffff_ffff_ffff_ffff) by (nonlinear_arith)
            requires
                t * unit == rounded_to_step((10 * n) as nat, unit as nat),
                rounded_to_step((10 * n) as nat, unit as nat) <= 10 * n + unit,
                unit >= 1024,
                n <= 0x1_0000_0000_0000_0000,
                t >= 0,
        ;
    }
    push_decimal(&mut out, (t / 10) as u64);
    out.push('.');
    push_decimal(&mut out, (t % 10) as u64);
    out.push(' ');
    if bytes < 1048576 {
        out.append("KB");
    } else if bytes < 1073741824 {
        out.append("MB");
    } else if bytes < 1099511627776 {
        out.append("GB");
    } else {
        out.append("TB");
    }
    proof {
        assert(out@ =~= file_size_text(bytes));
    }
    out
}

} // verus!
