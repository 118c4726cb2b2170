//! Sizes and rates as they are shown to the operator.

use vstd::prelude::*;
use vstd::string::*;

verus! {

/// The character of one decimal digit.
pub open spec fn digit_char(d: nat) -> char
    recommends
        d < 10,
{
    if d == 0 {
        '0'
    } else if d == 1 {
        '1'
    } else if d == 2 {
        '2'
    } else if d == 3 {
        '3'
    } else if d == 4 {
        '4'
    } else if d == 5 {
        '5'
    } else if d == 6 {
        '6'
    } else if d == 7 {
        '7'
    } else if d == 8 {
        '8'
    } else {
        '9'
    }
}

/// A number written in decimal, without leading zeros.
pub open spec fn decimal(n: nat) -> Seq<char>
    decreases n,
{
    if n < 10 {
        seq![digit_char(n)]
    } else {
        decimal(n / 10).push(digit_char(n % 10))
    }
}

/// The first quantity that is too large to be shown: `1024^5`, for which
/// there is no suffix.
pub const SCALE_LIMIT: u64 = 0x4_0000_0000_0000;

/// The power of 1024 a quantity is scaled by: the largest that does not
/// exceed it.
pub open spec fn magnitude(n: nat) -> nat
    recommends
        n < SCALE_LIMIT,
{
    if n < 0x400 {
        0
    } else if n < 0x10_0000 {
        1
    } else if n < 0x4000_0000 {
        2
    } else if n < 0x100_0000_0000 {
        3
    } else {
        4
    }
}

/// `1024^e` for the five magnitudes.
pub open spec fn unit(e: nat) -> nat
    recommends
        e <= 4,
{
    if e == 0 {
        1
    } else if e == 1 {
        0x400
    } else if e == 2 {
        0x10_0000
    } else if e == 3 {
        0x4000_0000
    } else {
        0x100_0000_0000
    }
}

/// A quantity over the unit of its magnitude, in tenths, rounded to the
/// nearest tenth with halves going up.
pub open spec fn tenths(n: nat) -> nat {
    (20 * n + unit(magnitude(n))) / (2 * unit(magnitude(n)))
}

/// A number of tenths rounded to a whole number, with halves going to the
/// even neighbour.
pub open spec fn nearest_whole(t: nat) -> nat {
    if t % 10 < 5 || (t % 10 == 5 && (t / 10) % 2 == 0) {
        t / 10
    } else {
        t / 10 + 1
    }
}

/// The number part of a scaled quantity. A quantity below ten stands as it
/// is. Any other is scaled by its magnitude and rounded to a tenth; below
/// ten it shows that one decimal place, from ten on none.
pub open spec fn scaled_text(n: nat) -> Seq<char> {
    if n < 10 {
        decimal(n)
    } else if tenths(n) < 100 {
        decimal(tenths(n) / 10) + seq!['.'] + decimal(tenths(n) % 10)
    } else {
        decimal(nearest_whole(tenths(n)))
    }
}

/// Suffix of a byte count of magnitude `e`.
pub open spec fn size_suffix(e: nat) -> Seq<char>
    recommends
        e <= 4,
{
    if e == 0 {
        seq!['B']
    } else if e == 1 {
        seq!['K']
    } else if e == 2 {
        seq!['M']
    } else if e == 3 {
        seq!['G']
    } else {
        seq!['T']
    }
}

/// Suffix of a bit rate of magnitude `e`.
pub open spec fn rate_suffix(e: nat) -> Seq<char>
    recommends
        e <= 4,
{
    if e == 0 {
        seq!['B', 'p', 's']
    } else if e == 1 {
        seq!['K', 'b', 'p', 's']
    } else if e == 2 {
        seq!['M', 'b', 'p', 's']
    } else if e == 3 {
        seq!['G', 'b', 'p', 's']
    } else {
        seq!['T', 'b', 'p', 's']
    }
}

/// A byte count as it is shown: `5B`, `2.0K`, `16M`.
pub open spec fn byte_size_text(n: nat) -> Seq<char> {
    scaled_text(n) + size_suffix(magnitude(n))
}

/// A rate of `n` bytes per second as it is shown, in bits per second:
/// `16Mbps`, `12Gbps`.
pub open spec fn bps_text(n: nat) -> Seq<char> {
    scaled_text(8 * n) + rate_suffix(magnitude(8 * n))
}

fn digit_str(d: u128) -> (s: &'static str)
    requires
        d < 10,
    ensures
        s@ == seq![digit_char(d as nat)],
{
    proof {
        reveal_strlit("0");
        reveal_strlit("1");
        reveal_strlit("2");
        reveal_strlit("3");
        reveal_strlit("4");
        reveal_strlit("5");
        reveal_strlit("6");
        reveal_strlit("7");
        reveal_strlit("8");
        reveal_strlit("9");
    }
    let s = if d == 0 {
        "0"
    } else if d == 1 {
        "1"
    } else if d == 2 {
        "2"
    } else if d == 3 {
        "3"
    } else if d == 4 {
        "4"
    } else if d == 5 {
        "5"
    } else if d == 6 {
        "6"
    } else if d == 7 {
        "7"
    } else if d == 8 {
        "8"
    } else {
        "9"
    };
    assert(s@ =~= seq![digit_char(d as nat)]);
    s
}

fn append_decimal(out: &mut String, n: u128)
    ensures
        final(out)@ == old(out)@ + decimal(n as nat),
    decreases n,
{
    if n >= 10 {
        append_decimal(out, n / 10);
    }
    out.append(digit_str(n % 10));
    assert(out@ =~= old(out)@ + decimal(n as nat));
}

fn magnitude_of(n: u128) -> (e: usize)
    ensures
        e == magnitude(n as nat),
{
    if n < 0x400 {
        0
    } else if n < 0x10_0000 {
        1
    } else if n < 0x4000_0000 {
        2
    } else if n < 0x100_0000_0000 {
        3
    } else {
        4
    }
}

fn unit_of(e: usize) -> (u: u128)
    requires
        e <= 4,
    ensures
        u == unit(e as nat),
{
    if e == 0 {
        1
    } else if e == 1 {
        0x400
    } else if e == 2 {
        0x10_0000
    } else if e == 3 {
        0x4000_0000
    } else {
        0x100_0000_0000
    }
}

fn append_scaled(out: &mut String, n: u128) -> (e: usize)
    requires
        n < SCALE_LIMIT,
    ensures
        final(out)@ == old(out)@ + scaled_text(n as nat),
        e == magnitude(n as nat),
{
    let e = magnitude_of(n);
    if n < 10 {
        append_decimal(out, n);
        return e;
    }
    let u = unit_of(e);
    let t: u128 = (20 * n + u) / (2 * u);
    if t < 100 {
        append_decimal(out, t / 10);
        proof {
            reveal_strlit(".");
        }
        out.append(".");
        append_decimal(out, t % 10);
        assert(out@ =~= old(out)@ + scaled_text(n as nat));
    } else {
        let q = t / 10;
        let r = t % 10;
        let whole = if r < 5 || (r == 5 && q % 2 == 0) {
            q
        } else {
            q + 1
        };
        append_decimal(out, whole);
    }
    e
}

/// Shows a byte count with the suffix of its magnitude.
pub fn byte_size(n: u32) -> (text: String)
    ensures
        text@ == byte_size_text(n as nat),
{
    let mut text = String::new();
    let e = append_scaled(&mut text, n as u128);
    proof {
        reveal_strlit("B");
        reveal_strlit("K");
        reveal_strlit("M");
        reveal_strlit("G");
        reveal_strlit("T");
    }
    let suffix = if e == 0 {
        "B"
    } else if e == 1 {
        "K"
    } else if e == 2 {
        "M"
    } else if e == 3 {
        "G"
    } else {
        "T"
    };
    assert(suffix@ =~= size_suffix(e as nat));
    text.append(suffix);
    assert(text@ =~= byte_size_text(n as nat));
    text
}

fn bit_rate(bits: u128) -> (text: String)
    requires
        bits < SCALE_LIMIT,
    ensures
        text@ == scaled_text(bits as nat) + rate_suffix(magnitude(bits as nat)),
{
    let mut text = String::new();
    let e = append_scaled(&mut text, bits);
    proof {
        reveal_strlit("Bps");
        reveal_strlit("Kbps");
        reveal_strlit("Mbps");
        reveal_strlit("Gbps");
        reveal_strlit("Tbps");
    }
    let suffix = if e == 0 {
        "Bps"
    } else if e == 1 {
        "Kbps"
    } else if e == 2 {
        "Mbps"
    } else if e == 3 {
        "Gbps"
    } else {
        "Tbps"
    };
    assert(suffix@ =~= rate_suffix(e as nat));
    text.append(suffix);
    assert(text@ =~= scaled_text(bits as nat) + rate_suffix(magnitude(bits as nat)));
    text
}

/// Shows a rate of `n` bytes per second in bits per second, with the suffix
/// of its magnitude. A rate of `1024^5` bits per second or more has no
/// suffix and cannot be shown.
pub fn bps(n: u64) -> (text: String)
    requires
        8 * n < SCALE_LIMIT,
    ensures
        text@ == bps_text(n as nat),
{
    bit_rate(8 * (n as u128))
}

/// The traffic of `rate` messages per second of `msg_size` bytes each, in
/// bytes per second. Every message is counted twice: once on its way to the
/// broker and once on its way to the subscriber.
pub open spec fn traffic(rate: u32, msg_size: u32) -> nat {
    2 * (rate as nat * msg_size as nat)
}

/// Shows the bandwidth that `rate` messages per second of `msg_size` bytes
/// take, in bits per second, as `bps` shows a rate.
pub fn bandwidth(rate: u32, msg_size: u32) -> (text: String)
    requires
        8 * traffic(rate, msg_size) < SCALE_LIMIT,
    ensures
        text@ == bps_text(traffic(rate, msg_size)),
{
    assert(rate as nat * msg_size as nat <= 0x1_0000_0000_0000_0000) by (nonlinear_arith)
        requires
            rate <= u32::MAX,
            msg_size <= u32::MAX,
    ;
    let bytes: u128 = rate as u128 * msg_size as u128;
    bit_rate(16 * bytes)
}

/// Whether the bandwidth of `rate` messages per second of `msg_size` bytes
/// can be shown: whether it is under `1024^5` bits per second.
pub fn bandwidth_fits(rate: u32, msg_size: u32) -> (fits: bool)
    ensures
        fits == (8 * traffic(rate, msg_size) < SCALE_LIMIT),
{
    assert(rate as nat * msg_size as nat <= 0x1_0000_0000_0000_0000) by (nonlinear_arith)
        requires
            rate <= u32::MAX,
            msg_size <= u32::MAX,
    ;
    16 * (rate as u128 * msg_size as u128) < SCALE_LIMIT as u128
}

} // verus!
