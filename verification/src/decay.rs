//! Fixed-point model of exponential decay.
//!
//! Signal strength lives on an integer scale where `SCALE` stands for full
//! strength 1.0; a decay constant is given in the same units per second, and
//! time in milliseconds. The decay curve `e^(-x)` is realised as the compound
//! factor `(1 - x / 2^16)^(2^16)`, computed by sixteen fixed-point squarings:
//! exact at `x = 0`, within a few millionths elsewhere, and — what the
//! coordination protocol actually rests on — provably monotone: strength
//! never increases as time passes.

use vstd::arithmetic::div_mod::{lemma_div_is_ordered, lemma_div_multiples_vanish};
use vstd::arithmetic::mul::{lemma_mul_inequality, lemma_mul_upper_bound};
use vstd::prelude::*;

verus! {

/// Fixed-point unit: an intensity of `SCALE` means full strength 1.0.
pub const SCALE: u64 = 1_000_000_000;

/// The compound-decay step count is `2^16`; the exponent is split this fine
/// so that the compound factor tracks the exponential closely.
pub const HALVINGS: u32 = 16;

/// `2^HALVINGS`.
pub const DIVISOR: u64 = 65536;

/// Exponents at or past this point (scaled by `SCALE`) decay to nothing:
/// `e^-46` is far below one part in `SCALE`.
pub const CUTOFF: u64 = 46_000_000_000;

/// Fixed-point multiplication: `a * b` where both are scaled by `SCALE`.
pub open spec fn mul_fp(a: nat, b: nat) -> nat {
    (a * b) / (SCALE as nat)
}

/// Fixed-point squaring.
pub open spec fn sq_fp(a: nat) -> nat {
    mul_fp(a, a)
}

/// `b` squared `k` times over, in fixed point: `b^(2^k)`.
pub open spec fn pow_sq(b: nat, k: nat) -> nat
    decreases k,
{
    if k == 0 {
        b
    } else {
        pow_sq(sq_fp(b), (k - 1) as nat)
    }
}

/// First factor of the compound decay: `1 - x / 2^16` in fixed point.
pub open spec fn decay_base(x: nat) -> nat {
    (SCALE - x / (DIVISOR as nat)) as nat
}

/// The decay factor `e^(-x/SCALE)` in fixed point: zero past the cutoff,
/// otherwise the compound factor `(1 - x/2^16)^(2^16)`.
pub open spec fn decay_factor(x: nat) -> nat {
    if x >= CUTOFF {
        0
    } else {
        pow_sq(decay_base(x), HALVINGS as nat)
    }
}

/// Milliseconds between a creation instant and a (possibly earlier, under
/// clock skew) reading instant; never negative.
pub open spec fn elapsed_ms_of(created_ms: u64, now_ms: u64) -> nat {
    if now_ms >= created_ms {
        (now_ms - created_ms) as nat
    } else {
        0
    }
}

/// The decay exponent `decay_per_sec * seconds`, both scaled by `SCALE`.
pub open spec fn decay_exponent(decay: nat, elapsed_ms: nat) -> nat {
    (decay * elapsed_ms) / 1000
}

/// Current strength of a signal deposited at strength `initial` (scaled by
/// `SCALE`) with decay constant `decay`, after `elapsed_ms` milliseconds:
/// `initial * e^(-decay * t)`, clamped to at most full strength.
pub open spec fn strength_spec(initial: nat, decay: nat, elapsed_ms: nat) -> nat {
    let raw = mul_fp(initial, decay_factor(decay_exponent(decay, elapsed_ms)));
    if raw > SCALE {
        SCALE as nat
    } else {
        raw
    }
}

/// Fixed-point products never exceed the smaller operand when the other is
/// at most one.
pub proof fn lemma_mul_fp_le(a: nat, b: nat)
    requires
        b <= SCALE,
    ensures
        mul_fp(a, b) <= a,
{
    lemma_mul_inequality(b as int, SCALE as int, a as int);
    assert(a * b == b * a) by (nonlinear_arith);
    assert(a * SCALE == SCALE * a) by (nonlinear_arith);
    lemma_div_is_ordered((a * b) as int, (a * SCALE) as int, SCALE as int);
    lemma_div_multiples_vanish(a as int, SCALE as int);
}

/// Fixed-point multiplication is monotone in both operands.
pub proof fn lemma_mul_fp_monotone(a1: nat, a2: nat, b1: nat, b2: nat)
    requires
        a1 <= a2,
        b1 <= b2,
    ensures
        mul_fp(a1, b1) <= mul_fp(a2, b2),
{
    lemma_mul_upper_bound(a1 as int, a2 as int, b1 as int, b2 as int);
    lemma_div_is_ordered((a1 * b1) as int, (a2 * b2) as int, SCALE as int);
}

/// Multiplying by full strength changes nothing.
pub proof fn lemma_mul_fp_scale(a: nat)
    ensures
        mul_fp(a, SCALE as nat) == a,
{
    assert(a * SCALE == SCALE * a) by (nonlinear_arith);
    lemma_div_multiples_vanish(a as int, SCALE as int);
}

/// Repeated squaring keeps a sub-unit value sub-unit, and below its start.
pub proof fn lemma_pow_sq_le(b: nat, k: nat)
    requires
        b <= SCALE,
    ensures
        pow_sq(b, k) <= b,
    decreases k,
{
    if k > 0 {
        lemma_mul_fp_le(b, b);
        lemma_pow_sq_le(sq_fp(b), (k - 1) as nat);
    }
}

/// Repeated squaring is monotone in its base.
pub proof fn lemma_pow_sq_monotone(b1: nat, b2: nat, k: nat)
    requires
        b1 <= b2,
    ensures
        pow_sq(b1, k) <= pow_sq(b2, k),
    decreases k,
{
    if k > 0 {
        lemma_mul_fp_monotone(b1, b2, b1, b2);
        lemma_pow_sq_monotone(sq_fp(b1), sq_fp(b2), (k - 1) as nat);
    }
}

/// Full strength squared any number of times is still full strength.
pub proof fn lemma_pow_sq_scale(k: nat)
    ensures
        pow_sq(SCALE as nat, k) == SCALE,
    decreases k,
{
    if k > 0 {
        lemma_mul_fp_scale(SCALE as nat);
        lemma_pow_sq_scale((k - 1) as nat);
    }
}

/// The decay factor is never more than full strength.
pub proof fn lemma_decay_factor_le_scale(x: nat)
    ensures
        decay_factor(x) <= SCALE,
{
    if x < CUTOFF {
        lemma_pow_sq_le(decay_base(x), HALVINGS as nat);
    }
}

/// No time elapsed means no decay at all.
pub proof fn lemma_decay_factor_at_zero()
    ensures
        decay_factor(0) == SCALE,
{
    assert(decay_base(0) == SCALE);
    lemma_pow_sq_scale(HALVINGS as nat);
}

/// The decay factor never increases as the exponent grows.
pub proof fn lemma_decay_factor_antitone(x1: nat, x2: nat)
    requires
        x1 <= x2,
    ensures
        decay_factor(x1) >= decay_factor(x2),
{
    if x2 < CUTOFF {
        lemma_div_is_ordered(x1 as int, x2 as int, DIVISOR as int);
        lemma_div_is_ordered(x2 as int, CUTOFF as int, DIVISOR as int);
        lemma_pow_sq_monotone(decay_base(x2), decay_base(x1), HALVINGS as nat);
    }
}

/// Strength is always within the unit range.
pub proof fn lemma_strength_le_scale(initial: nat, decay: nat, elapsed_ms: nat)
    ensures
        strength_spec(initial, decay, elapsed_ms) <= SCALE,
{
}

/// A signal reads back its full deposited strength at the moment of creation.
pub proof fn lemma_strength_at_zero(initial: nat, decay: nat)
    requires
        initial <= SCALE,
    ensures
        strength_spec(initial, decay, 0) == initial,
{
    assert(decay * 0 == 0) by (nonlinear_arith);
    assert(decay_exponent(decay, 0) == 0);
    lemma_decay_factor_at_zero();
    lemma_mul_fp_scale(initial);
}

/// Strength is monotonically non-increasing in elapsed time: sampled at two
/// instants `e1 <= e2`, the earlier reading is at least the later one.
pub proof fn lemma_strength_antitone(initial: nat, decay: nat, e1: nat, e2: nat)
    requires
        e1 <= e2,
    ensures
        strength_spec(initial, decay, e1) >= strength_spec(initial, decay, e2),
{
    lemma_mul_inequality(e1 as int, e2 as int, decay as int);
    assert(decay * e1 == e1 * decay) by (nonlinear_arith);
    assert(decay * e2 == e2 * decay) by (nonlinear_arith);
    lemma_div_is_ordered((decay * e1) as int, (decay * e2) as int, 1000);
    lemma_decay_factor_antitone(decay_exponent(decay, e1), decay_exponent(decay, e2));
    lemma_mul_fp_monotone(
        initial,
        initial,
        decay_factor(decay_exponent(decay, e2)),
        decay_factor(decay_exponent(decay, e1)),
    );
}

/// The decay factor at `ln 2` itself: one half, to within two hundredths of
/// a thousandth.
pub proof fn lemma_factor_at_ln2()
    ensures
        decay_factor(693_147_181) == 500_007_150,
{
    reveal_with_fuel(pow_sq, 17);
    assert(693_147_181nat / (DIVISOR as nat) == 10576);
    assert(decay_base(693_147_181) == 999_989_424);
    assert(sq_fp(999_989_424) == 999_978_848);
    assert(sq_fp(999_978_848) == 999_957_696);
    assert(sq_fp(999_957_696) == 999_915_393);
    assert(sq_fp(999_915_393) == 999_830_793);
    assert(sq_fp(999_830_793) == 999_661_614);
    assert(sq_fp(999_661_614) == 999_323_342);
    assert(sq_fp(999_323_342) == 998_647_141);
    assert(sq_fp(998_647_141) == 997_296_112);
    assert(sq_fp(997_296_112) == 994_599_535);
    assert(sq_fp(994_599_535) == 989_228_235);
    assert(sq_fp(989_228_235) == 978_572_500);
    assert(sq_fp(978_572_500) == 957_604_137);
    assert(sq_fp(957_604_137) == 917_005_683);
    assert(sq_fp(917_005_683) == 840_899_422);
    assert(sq_fp(840_899_422) == 707_111_837);
    assert(sq_fp(707_111_837) == 500_007_150);
}

/// The decay factor a thousandth below `ln 2`: barely above one half.
pub proof fn lemma_factor_near_ln2()
    ensures
        decay_factor(692_147_181) == 500_499_326,
{
    reveal_with_fuel(pow_sq, 17);
    assert(692_147_181nat / (DIVISOR as nat) == 10561);
    assert(decay_base(692_147_181) == 999_989_439);
    assert(sq_fp(999_989_439) == 999_978_878);
    assert(sq_fp(999_978_878) == 999_957_756);
    assert(sq_fp(999_957_756) == 999_915_513);
    assert(sq_fp(999_915_513) == 999_831_033);
    assert(sq_fp(999_831_033) == 999_662_094);
    assert(sq_fp(999_662_094) == 999_324_302);
    assert(sq_fp(999_324_302) == 998_649_060);
    assert(sq_fp(998_649_060) == 997_299_945);
    assert(sq_fp(997_299_945) == 994_607_180);
    assert(sq_fp(994_607_180) == 989_243_442);
    assert(sq_fp(989_243_442) == 978_602_587);
    assert(sq_fp(978_602_587) == 957_663_023);
    assert(sq_fp(957_663_023) == 917_118_465);
    assert(sq_fp(917_118_465) == 841_106_278);
    assert(sq_fp(841_106_278) == 707_459_770);
    assert(sq_fp(707_459_770) == 500_499_326);
}

/// The decay factor for an exponent `x` scaled by `SCALE`, as executable code.
pub fn decay_factor_exec(x: u64) -> (r: u64)
    ensures
        r == decay_factor(x as nat),
        r <= SCALE,
{
    proof {
        lemma_decay_factor_le_scale(x as nat);
    }
    if x >= CUTOFF {
        return 0;
    }
    proof {
        lemma_div_is_ordered(x as int, CUTOFF as int, DIVISOR as int);
    }
    let mut b: u64 = SCALE - x / DIVISOR;
    let ghost base0: nat = b as nat;
    assert(b as nat == decay_base(x as nat));
    let mut i: u32 = 0;
    while i < HALVINGS
        invariant
            i <= HALVINGS,
            b <= SCALE,
            pow_sq(b as nat, (HALVINGS - i) as nat) == pow_sq(base0, HALVINGS as nat),
        decreases HALVINGS - i,
    {
        proof {
            lemma_mul_upper_bound(b as int, SCALE as int, b as int, SCALE as int);
            lemma_mul_fp_le(b as nat, b as nat);
            assert(pow_sq(b as nat, (HALVINGS - i) as nat) == pow_sq(
                sq_fp(b as nat),
                (HALVINGS - i - 1) as nat,
            ));
        }
        b = (b * b) / SCALE;
        i = i + 1;
    }
    assert(pow_sq(b as nat, 0) == b as nat);
    b
}

/// Current strength of a signal, as executable code: `initial` scaled by
/// `SCALE`, `decay` in `SCALE`-units per second, `elapsed_ms` in milliseconds.
pub fn strength_exec(initial: u64, decay: u64, elapsed_ms: u64) -> (r: u64)
    ensures
        r == strength_spec(initial as nat, decay as nat, elapsed_ms as nat),
        r <= SCALE,
{
    proof {
        lemma_mul_upper_bound(decay as int, u64::MAX as int, elapsed_ms as int, u64::MAX as int);
    }
    let x_wide: u128 = ((decay as u128) * (elapsed_ms as u128)) / 1000;
    assert(x_wide == decay_exponent(decay as nat, elapsed_ms as nat));
    let f: u64 = if x_wide >= CUTOFF as u128 {
        proof {
            assert(decay_factor(x_wide as nat) == 0);
        }
        0u64
    } else {
        decay_factor_exec(x_wide as u64)
    };
    assert(f == decay_factor(decay_exponent(decay as nat, elapsed_ms as nat)));
    proof {
        lemma_mul_upper_bound(initial as int, u64::MAX as int, f as int, SCALE as int);
    }
    let p: u128 = ((initial as u128) * (f as u128)) / (SCALE as u128);
    assert(p == mul_fp(initial as nat, f as nat));
    if p > SCALE as u128 {
        SCALE
    } else {
        p as u64
    }
}

} // verus!
