//! Axial flux profile: a chopped-parabola approximation of the
//! fundamental axial mode, scaled by the neutron population, and a
//! one-group k_eff estimate from geometric buckling.

use vstd::prelude::*;

verus! {

use crate::fx::{SCALE, tdiv, fmul, mul_fx, mul_div, lemma_fmul_fits, lemma_muldiv_fits,
    lemma_tdiv_abs};
use crate::params::{NEUTRON_MAX, K_INFINITY, MIGRATION_PI2_CM2};

/// Fixed-point axial shape factor at sample `k` of `n` samples: the
/// parabola `4 x (1 - x)` evaluated at the sample midpoint, which peaks
/// at the core midplane and vanishes at the ends.
pub open spec fn spec_axial_shape(k: int, n: int) -> int {
    tdiv((2 * k + 1) * (2 * n - 2 * k - 1) * SCALE, n * n)
}

/// Axial shape factor (see [`spec_axial_shape`]).
pub fn axial_shape(k: usize, n: usize) -> (r: i64)
    requires
        0 < n <= 10_000,
        k < n,
    ensures
        r as int == spec_axial_shape(k as int, n as int),
        0 <= r <= SCALE,
{
    let a: i64 = 2 * (k as i64) + 1;
    let b: i64 = 2 * (n as i64) - 2 * (k as i64) - 1;
    proof {
        assert(0 < (n as int) * (n as int) <= 100_000_000) by (nonlinear_arith)
            requires
                0 < n <= 10_000,
        ;
    }
    let n2: i64 = (n as i64) * (n as i64);
    proof {
        assert(0 < a as int * b as int <= 400_040_001) by (nonlinear_arith)
            requires
                0 < a <= 20_001,
                0 < b <= 20_001,
        ;
    }
    let ab: i64 = a * b;
    proof {
        assert(0 < a as int * b as int <= n2 as int) by (nonlinear_arith)
            requires
                0 < a,
                0 < b,
                a as int + b as int == 2 * (n as int),
                n2 as int == (n as int) * (n as int),
        ;
        lemma_muldiv_fits(ab as int, SCALE as int, n2 as int, 100_000_000, SCALE as int, 1);
        assert((ab as int) * (SCALE as int) <= (n2 as int) * (SCALE as int)
            && (ab as int) * (SCALE as int) > 0) by (nonlinear_arith)
            requires
                0 < ab <= n2,
        ;
        lemma_tdiv_abs((ab as int) * (SCALE as int), n2 as int);
        vstd::arithmetic::div_mod::lemma_div_pos_is_pos((ab as int) * (SCALE as int),
            n2 as int);
        vstd::arithmetic::div_mod::lemma_multiply_divide_le((ab as int) * (SCALE as int),
            n2 as int, SCALE as int);
    }
    mul_div(ab, SCALE, n2)
}

/// The axial flux profile scaled by the neutron population: sample `k`
/// is `n_pop * shape(k)`.
pub fn update_axial_flux(n_points: usize, neutron_population: i64) -> (r: Vec<i64>)
    requires
        0 < n_points <= 10_000,
        0 <= neutron_population <= NEUTRON_MAX,
    ensures
        r@.len() == n_points,
        forall|k: int| 0 <= k < n_points ==> #[trigger] r@[k] as int == fmul(
            neutron_population as int, spec_axial_shape(k, n_points as int)),
        forall|k: int| 0 <= k < n_points ==> 0 <= #[trigger] r@[k] <= NEUTRON_MAX,
{
    let mut out: Vec<i64> = Vec::new();
    let mut k: usize = 0;
    while k < n_points
        invariant
            0 <= k <= n_points,
            0 < n_points <= 10_000,
            0 <= neutron_population <= NEUTRON_MAX,
            out@.len() == k,
            forall|t: int| 0 <= t < k ==> #[trigger] out@[t] as int == fmul(
                neutron_population as int, spec_axial_shape(t, n_points as int)),
            forall|t: int| 0 <= t < k ==> 0 <= #[trigger] out@[t] <= NEUTRON_MAX,
        decreases n_points - k,
    {
        let shape: i64 = axial_shape(k, n_points);
        proof {
            lemma_fmul_fits(neutron_population as int, shape as int, NEUTRON_MAX as int,
                SCALE as int);
            assert(0 <= neutron_population as int * (shape as int) <= (neutron_population
                as int) * (SCALE as int)) by (nonlinear_arith)
                requires
                    0 <= neutron_population,
                    0 <= shape <= SCALE,
            ;
            lemma_tdiv_abs(neutron_population as int * (shape as int), SCALE as int);
            crate::fx::lemma_div_le(neutron_population as int * (shape as int),
                neutron_population as int * (SCALE as int), SCALE as int);
            vstd::arithmetic::div_mod::lemma_div_by_multiple(neutron_population as int,
                SCALE as int);
        }
        let v: i64 = mul_fx(neutron_population, shape);
        out.push(v);
        k = k + 1;
    }
    out
}

/// One-group k_eff estimate with a geometric-buckling correction:
/// `k_inf * H^2 / (H^2 + M^2 pi^2)` for a core of height `H`.
pub open spec fn spec_buckled_k_eff(h_cm: int) -> int {
    if h_cm * h_cm >= 1 {
        tdiv((K_INFINITY as int) * (h_cm * h_cm), h_cm * h_cm + MIGRATION_PI2_CM2)
    } else {
        K_INFINITY as int
    }
}

/// Axial flux distribution and k_eff from a one-group diffusion
/// estimate: a fundamental-mode profile over `n_points` samples of
/// height `dz` (fixed-point cm) each, and the buckled k_eff (see
/// [`spec_buckled_k_eff`]). The returned k_eff is always positive.
pub fn calc_neutron_flux(n_points: usize, dz: i64) -> (r: (Vec<i64>, i64))
    requires
        0 < n_points <= 10_000,
        0 <= dz <= 1_000_000_000_000,
    ensures
        r.0@.len() == n_points,
        forall|k: int| 0 <= k < n_points ==> #[trigger] r.0@[k] as int == spec_axial_shape(k,
            n_points as int),
        forall|k: int| 0 <= k < n_points ==> #[trigger] r.0@[k] >= 0,
        r.1 as int == spec_buckled_k_eff(tdiv(n_points as int * dz as int, SCALE as int)),
        r.1 > 0,
{
    let mut out: Vec<i64> = Vec::new();
    let mut k: usize = 0;
    while k < n_points
        invariant
            0 <= k <= n_points,
            0 < n_points <= 10_000,
            out@.len() == k,
            forall|t: int| 0 <= t < k ==> #[trigger] out@[t] as int == spec_axial_shape(t,
                n_points as int),
            forall|t: int| 0 <= t < k ==> #[trigger] out@[t] >= 0,
        decreases n_points - k,
    {
        let shape: i64 = axial_shape(k, n_points);
        out.push(shape);
        k = k + 1;
    }
    proof {
        assert(0 <= n_points as int * dz as int <= 10_000_000_000_000_000) by (nonlinear_arith)
            requires
                0 < n_points <= 10_000,
                0 <= dz <= 1_000_000_000_000,
        ;
        lemma_muldiv_fits(n_points as i64 as int, dz as int, SCALE as int, 10_000,
            1_000_000_000_000, SCALE as int);
        lemma_tdiv_abs(n_points as i64 as int * dz as int, SCALE as int);
        vstd::arithmetic::div_mod::lemma_div_pos_is_pos(n_points as int * dz as int,
            SCALE as int);
    }
    let h_cm: i64 = mul_div(n_points as i64, dz, SCALE);
    proof {
        assert(0 <= h_cm as int * h_cm as int <= 100_000_000_000_000) by (nonlinear_arith)
            requires
                0 <= h_cm <= 10_000_000,
        ;
    }
    let h2: i64 = h_cm * h_cm;
    let k_eff: i64 = if h2 >= 1 {
        proof {
            lemma_muldiv_fits(K_INFINITY as int, h2 as int, h2 + MIGRATION_PI2_CM2,
                K_INFINITY as int, h2 as int, h2 as int);
            vstd::arithmetic::div_mod::lemma_div_by_multiple(K_INFINITY as int, h2 as int);
            assert((K_INFINITY as int) * (h2 as int) >= h2 + MIGRATION_PI2_CM2)
                by (nonlinear_arith)
                requires
                    1 <= h2 <= 100_000_000_000_000,
            ;
            vstd::arithmetic::div_mod::lemma_div_non_zero((K_INFINITY as int) * (h2 as int),
                h2 + MIGRATION_PI2_CM2);
        }
        mul_div(K_INFINITY, h2, h2 + MIGRATION_PI2_CM2)
    } else {
        K_INFINITY
    };
    (out, k_eff)
}

} // verus!
