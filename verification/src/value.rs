//! A plain-integer model of the timing values.
//!
//! A mean duration enters the library as the bit pattern of a 64-bit IEEE-754
//! number, so that validity (finite or not) and relative magnitude can be
//! reasoned about as integer arithmetic on the bits. For numbers that are
//! finite and non-negative, the bit patterns order exactly as the values do,
//! and a value is recovered exactly as `significand * 2^(adjusted exponent)`
//! up to one global power-of-two factor, which cancels in every ratio the
//! chart needs.

use vstd::prelude::*;
use vstd::arithmetic::power2::pow2;
use vstd::arithmetic::power2::lemma_pow2_pos;
use vstd::arithmetic::div_mod::lemma_div_denominator;
use vstd::bits::lemma_u128_shr_is_div;

verus! {

/// The sign bit of the encoded number: 0 for non-negative values.
pub open spec fn sign_bit(b: u64) -> u64 {
    b >> 63
}

/// The 11-bit exponent field of the encoded number.
pub open spec fn exp_field(b: u64) -> u64 {
    (b >> 52) & 0x7ff
}

/// The 52-bit fraction field of the encoded number.
pub open spec fn mant_field(b: u64) -> u64 {
    b & 0xf_ffff_ffff_ffff
}

/// A bit pattern encodes a finite number exactly when its exponent field is
/// not all ones (all ones encodes an infinity or a NaN).
pub open spec fn is_finite_bits(b: u64) -> bool {
    exp_field(b) != 0x7ff
}

/// The full significand: the fraction field with the implied leading bit
/// added back for normal numbers. Zero exactly when the encoded value is zero.
pub open spec fn significand(b: u64) -> u64 {
    if exp_field(b) == 0 {
        mant_field(b)
    } else {
        (mant_field(b) + 0x10_0000_0000_0000) as u64
    }
}

/// The exponent with subnormals folded onto the same scale as the smallest
/// normal numbers, so that `significand * 2^adj_exp` compares encoded values
/// exactly (up to the shared bias, which cancels in ratios).
pub open spec fn adj_exp(b: u64) -> u64 {
    if exp_field(b) == 0 {
        1
    } else {
        exp_field(b)
    }
}

/// Whether the bit pattern encodes a finite number.
pub fn is_finite(b: u64) -> (r: bool)
    ensures
        r == is_finite_bits(b),
{
    ((b >> 52) & 0x7ff) != 0x7ff
}

/// The length of a bar for the value encoded by `b`, out of `span` units for
/// the largest value encoded by `m`: the proportional length
/// `floor(value(b) / value(m) * span)`, clamped into `0 ..= span`, written
/// over the integer decompositions. A value that is not strictly positive
/// gets an empty bar; with no positive largest value every bar is empty. The
/// exponent-gap cutoff at 64 only ever underestimates a length that is below
/// one unit whenever `significand(b) * span` fits in 64 bits, which holds for
/// every span the chart uses.
pub open spec fn bar_len_spec(b: u64, m: u64, span: u64) -> u64 {
    if sign_bit(b) != 0 || significand(b) == 0 || sign_bit(m) != 0 || significand(m) == 0 {
        0
    } else if adj_exp(b) > adj_exp(m) {
        span
    } else if adj_exp(m) - adj_exp(b) >= 64 {
        0
    } else {
        let d = (adj_exp(m) - adj_exp(b)) as nat;
        let q = (significand(b) * span) as int / (significand(m) * pow2(d)) as int;
        if q >= span {
            span
        } else {
            q as u64
        }
    }
}

/// The exponent field of the encoding, executable form.
fn exp_field_of(b: u64) -> (e: u64)
    ensures
        e == exp_field(b),
        e <= 0x7ff,
{
    proof {
        assert((b >> 52) & 0x7ff <= 0x7ff) by (bit_vector);
    }
    (b >> 52) & 0x7ff
}

/// The full significand of the encoding, executable form.
fn significand_of(b: u64) -> (s: u64)
    ensures
        s == significand(b),
        s < 0x20_0000_0000_0000,
{
    let e = exp_field_of(b);
    let m = b & 0xf_ffff_ffff_ffff;
    proof {
        assert(b & 0xf_ffff_ffff_ffff <= 0xf_ffff_ffff_ffff) by (bit_vector);
    }
    if e == 0 {
        m
    } else {
        m + 0x10_0000_0000_0000
    }
}

/// The adjusted exponent of the encoding, executable form.
fn adj_exp_of(b: u64) -> (e: u64)
    ensures
        e == adj_exp(b),
        1 <= e <= 0x7ff,
{
    let e = exp_field_of(b);
    if e == 0 {
        1
    } else {
        e
    }
}

/// The executable bar length: exactly `bar_len_spec`, and never past the span.
pub fn bar_length(b: u64, m: u64, span: u64) -> (r: u64)
    ensures
        r == bar_len_spec(b, m, span),
        r <= span,
{
    let sig_b = significand_of(b);
    let sig_m = significand_of(m);
    if (b >> 63) != 0 || sig_b == 0 || (m >> 63) != 0 || sig_m == 0 {
        return 0;
    }
    let eb = adj_exp_of(b);
    let em = adj_exp_of(m);
    if em < eb {
        return span;
    }
    let d = em - eb;
    if d >= 64 {
        return 0;
    }
    proof {
        let sb = sig_b as int;
        let sp = span as int;
        assert(sb * sp <= 0x20_0000_0000_0000 * 0xffff_ffff_ffff_ffff) by (nonlinear_arith)
            requires
                0 <= sb < 0x20_0000_0000_0000,
                0 <= sp <= 0xffff_ffff_ffff_ffff,
        ;
    }
    let num: u128 = (sig_b as u128) * (span as u128);
    let shifted: u128 = num >> (d as u128);
    let q: u128 = shifted / (sig_m as u128);
    proof {
        lemma_u128_shr_is_div(num, d as u128);
        lemma_pow2_pos(d as nat);
        lemma_div_denominator(num as int, pow2(d as nat) as int, sig_m as int);
        assert(pow2(d as nat) * sig_m == sig_m * pow2(d as nat)) by (nonlinear_arith);
    }
    if q >= span as u128 {
        span
    } else {
        q as u64
    }
}

} // verus!
