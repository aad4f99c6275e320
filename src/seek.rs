//! Seeking: positions in seconds, and the frame they name at a sample rate.
use vstd::prelude::*;
use std::sync::mpsc::Sender;
use crate::command::{DecoderCommand, send_decoder_command};
use crate::state::PlaybackState;

verus! {

/// A non-negative time in seconds, held exactly as `mantissa × 2^exponent`.
#[derive(Debug, Clone, Copy, PartialEq, Eq, Structural)]
pub struct Seconds {
    pub mantissa: u64,
    pub exponent: i32,
}

/// Two to the power `n`.
pub open spec fn two_to(n: nat) -> nat
    decreases n,
{
    if n == 0 { 1 } else { 2 * two_to((n - 1) as nat) }
}

/// `round(p × rate)` for the exact value of `p`, halves rounded up.
pub open spec fn frames_at(p: Seconds, rate: nat) -> nat {
    let q = p.mantissa as nat * rate;
    if p.exponent >= 0 {
        q * two_to(p.exponent as nat)
    } else {
        let d = two_to((-p.exponent) as nat);
        (2 * q + d) / (2 * d)
    }
}

/// The frame that a seek to `p` targets at `rate`, saturating at the largest `u64`.
pub open spec fn seek_target(p: Seconds, rate: u32) -> u64 {
    let f = frames_at(p, rate as nat);
    if f <= u64::MAX as nat { f as u64 } else { u64::MAX }
}

/// Sign bit of a 64-bit IEEE-754 double.
pub open spec fn f64_sign(bits: u64) -> u64 {
    bits >> 63u64
}

/// Biased exponent field of a 64-bit IEEE-754 double.
pub open spec fn f64_exponent(bits: u64) -> u64 {
    (bits >> 52u64) & 0x7ffu64
}

/// Fraction field of a 64-bit IEEE-754 double.
pub open spec fn f64_fraction(bits: u64) -> u64 {
    bits & 0xf_ffff_ffff_ffffu64
}

/// The double with these bits as a time: negative values, zero and NaN
/// become zero, +∞ becomes `2^1024` (above every finite double), subnormal and
/// normal values are kept exactly.
pub open spec fn seconds_of_f64_bits(bits: u64) -> Seconds {
    let e = f64_exponent(bits);
    let m = f64_fraction(bits);
    if f64_sign(bits) == 1 {
        Seconds { mantissa: 0, exponent: 0 }
    } else if e == 0x7ff {
        if m == 0 {
            Seconds { mantissa: 1, exponent: 1024 }
        } else {
            Seconds { mantissa: 0, exponent: 0 }
        }
    } else if e == 0 {
        Seconds { mantissa: m, exponent: -1074i32 }
    } else {
        Seconds { mantissa: (m + 0x10_0000_0000_0000u64) as u64, exponent: (e - 1075) as i32 }
    }
}

impl Seconds {
    /// The time named by a double, given by its bit pattern (`f64::to_bits`).
    pub fn from_f64_bits(bits: u64) -> (r: Seconds)
        ensures
            r == seconds_of_f64_bits(bits),
    {
        let e: u64 = (bits >> 52u64) & 0x7ffu64;
        let m: u64 = bits & 0xf_ffff_ffff_ffffu64;
        if bits >> 63u64 == 1 {
            Seconds { mantissa: 0, exponent: 0 }
        } else if e == 0x7ff {
            if m == 0 {
                Seconds { mantissa: 1, exponent: 1024 }
            } else {
                Seconds { mantissa: 0, exponent: 0 }
            }
        } else if e == 0 {
            Seconds { mantissa: m, exponent: -1074 }
        } else {
            assert(m < 0x10_0000_0000_0000) by (bit_vector)
                requires
                    m == bits & 0xf_ffff_ffff_ffffu64,
            ;
            assert(e <= 0x7ff) by (bit_vector)
                requires
                    e == (bits >> 52u64) & 0x7ffu64,
            ;
            Seconds { mantissa: m + 0x10_0000_0000_0000, exponent: e as i32 - 1075 }
        }
    }
}

proof fn lemma_two_to_positive(n: nat)
    ensures
        two_to(n) >= 1,
    decreases n,
{
    if n > 0 {
        lemma_two_to_positive((n - 1) as nat);
    }
}

proof fn lemma_two_to_monotone(a: nat, b: nat)
    requires
        a <= b,
    ensures
        two_to(a) <= two_to(b),
    decreases b,
{
    if a < b {
        lemma_two_to_monotone(a, (b - 1) as nat);
        lemma_two_to_positive((b - 1) as nat);
    }
}

/// Largest product of a `u64` and a `u32`.
const PRODUCT_MAX: u128 = 0xffff_fffe_ffff_ffff_0000_0001;

/// The frame that a seek to `position` targets at `sample_rate`:
/// `round(position × sample_rate)`, saturating at the largest `u64`.
pub fn seek_target_samples(position: Seconds, sample_rate: u32) -> (r: u64)
    ensures
        r == seek_target(position, sample_rate),
{
    assert(position.mantissa as nat * sample_rate as nat <= PRODUCT_MAX) by (nonlinear_arith)
        requires
            position.mantissa <= u64::MAX,
            sample_rate <= u32::MAX,
    ;
    let q: u128 = position.mantissa as u128 * sample_rate as u128;
    if q == 0 {
        assert(frames_at(position, sample_rate as nat) == 0) by {
            lemma_two_to_positive((-position.exponent) as nat);
            lemma_two_to_positive(position.exponent as nat);
            let d = two_to((-position.exponent) as nat);
            assert(d / (2 * d) == 0) by (nonlinear_arith)
                requires
                    d >= 1,
            ;
        }
        return 0;
    }
    if position.exponent >= 0 {
        let e: u64 = position.exponent as u64;
        let mut v: u128 = q;
        let mut i: u64 = 0;
        assert(two_to(0) == 1);
        while i < e
            invariant
                i <= e,
                e == position.exponent,
                q == position.mantissa as nat * sample_rate as nat,
                v == q * two_to(i as nat),
                v <= PRODUCT_MAX,
            decreases e - i,
        {
            if v > u64::MAX as u128 {
                proof {
                    lemma_two_to_monotone(i as nat, e as nat);
                    assert(q * two_to(e as nat) >= q * two_to(i as nat)) by (nonlinear_arith)
                        requires
                            two_to(e as nat) >= two_to(i as nat),
                    ;
                }
                return u64::MAX;
            }
            assert(v * 2 == q * two_to((i + 1) as nat)) by (nonlinear_arith)
                requires
                    v == q * two_to(i as nat),
                    two_to((i + 1) as nat) == 2 * two_to(i as nat),
            ;
            v = v * 2;
            i = i + 1;
        }
        if v > u64::MAX as u128 {
            u64::MAX
        } else {
            v as u64
        }
    } else {
        let k: u64 = (0i64 - position.exponent as i64) as u64;
        let mut d: u128 = 1;
        let mut j: u64 = 0;
        assert(two_to(0) == 1);
        while j < k
            invariant
                j <= k,
                k == -position.exponent,
                q == position.mantissa as nat * sample_rate as nat,
                d == two_to(j as nat),
                1 <= d <= 4 * PRODUCT_MAX,
                1 <= q <= PRODUCT_MAX,
            decreases k - j,
        {
            if d > 2 * q {
                proof {
                    lemma_two_to_monotone(j as nat, k as nat);
                    let dk: int = two_to(k as nat) as int;
                    let qi: int = q as int;
                    assert((2 * qi + dk) / (2 * dk) == 0) by (nonlinear_arith)
                        requires
                            2 * qi < dk,
                            qi >= 0,
                    ;
                }
                return 0;
            }
            d = d * 2;
            j = j + 1;
        }
        let r: u128 = (2 * q + d) / (2 * d);
        if r > u64::MAX as u128 {
            u64::MAX
        } else {
            r as u64
        }
    }
}

/// Forwards a seek to the active decoder, if there is one, and returns the
/// command handed to it. The target is computed at the state's current
/// sample rate. Without a decoder nothing happens.
pub fn seek<V>(
    state: &PlaybackState<V>,
    decoder_command_sender: &Option<Sender<DecoderCommand>>,
    position: Seconds,
) -> (r: Option<DecoderCommand>)
    ensures
        decoder_command_sender.is_none() ==> r.is_none(),
        decoder_command_sender.is_some() ==> r == Some(
            DecoderCommand::Seek(seek_target(position, state.sample_rate)),
        ),
{
    match decoder_command_sender {
        Some(sender) => {
            let target = seek_target_samples(position, state.sample_rate);
            let command = DecoderCommand::Seek(target);
            send_decoder_command(sender, command);
            Some(command)
        },
        None => None,
    }
}

} // verus!
