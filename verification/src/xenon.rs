//! Xenon-135 / iodine-135 poison kinetics, integrated by a single forward
//! Euler step per tick. Concentrations are relative: one unit stands for
//! 10^15 atoms/cm^3; the relative neutron flux equals the neutron
//! population (1.0 = nominal).

use vstd::prelude::*;

verus! {

use crate::fx::{fmul, fdiv, clip, mul_fx, div_fx, clamp_fx, lemma_fmul_fits,
    lemma_muldiv_fits, SCALE};
use crate::params::{LAMBDA_IODINE, LAMBDA_XENON, IODINE_YIELD_RATE, XENON_YIELD_RATE,
    XENON_ABSORB_RATE, CONCENTRATION_MAX, NEUTRON_MAX, DT_MIN, DT_MAX};

/// Iodine derivative: production from fission minus decay.
pub open spec fn spec_iodine_deriv(iodine: int, flux: int) -> int {
    fmul(IODINE_YIELD_RATE as int, flux) - fmul(LAMBDA_IODINE as int, iodine)
}

/// Xenon derivative: direct yield plus iodine decay, minus xenon decay
/// and neutron absorption burn-off.
pub open spec fn spec_xenon_deriv(iodine: int, xenon: int, flux: int) -> int {
    fmul(XENON_YIELD_RATE as int, flux) + fmul(LAMBDA_IODINE as int, iodine)
        - fmul(LAMBDA_XENON as int, xenon) - fmul(XENON_ABSORB_RATE as int, fmul(flux, xenon))
}

/// New iodine concentration after one Euler step, clamped non-negative
/// with a generous upper sentinel.
pub open spec fn spec_iodine_next(iodine: int, flux: int, dt: int) -> int {
    clip(iodine + fmul(dt, spec_iodine_deriv(iodine, flux)), 0, CONCENTRATION_MAX as int)
}

/// New xenon concentration after one Euler step, clamped likewise.
pub open spec fn spec_xenon_next(iodine: int, xenon: int, flux: int, dt: int) -> int {
    clip(xenon + fmul(dt, spec_xenon_deriv(iodine, xenon, flux)), 0, CONCENTRATION_MAX as int)
}

/// Advance the iodine/xenon pair by one time step.
pub fn calc_xenon(iodine: i64, xenon: i64, neutron_flux: i64, dt: i64) -> (r: (i64, i64))
    requires
        0 <= iodine <= CONCENTRATION_MAX,
        0 <= xenon <= CONCENTRATION_MAX,
        0 <= neutron_flux <= NEUTRON_MAX,
        DT_MIN <= dt <= DT_MAX,
    ensures
        r.0 as int == spec_iodine_next(iodine as int, neutron_flux as int, dt as int),
        r.1 as int == spec_xenon_next(iodine as int, xenon as int, neutron_flux as int,
            dt as int),
        0 <= r.0 <= CONCENTRATION_MAX,
        0 <= r.1 <= CONCENTRATION_MAX,
{
    proof {
        lemma_fmul_fits(IODINE_YIELD_RATE as int, neutron_flux as int, IODINE_YIELD_RATE as int,
            NEUTRON_MAX as int);
        lemma_fmul_fits(LAMBDA_IODINE as int, iodine as int, LAMBDA_IODINE as int,
            CONCENTRATION_MAX as int);
        lemma_fmul_fits(XENON_YIELD_RATE as int, neutron_flux as int, XENON_YIELD_RATE as int,
            NEUTRON_MAX as int);
        lemma_fmul_fits(LAMBDA_XENON as int, xenon as int, LAMBDA_XENON as int,
            CONCENTRATION_MAX as int);
        lemma_fmul_fits(neutron_flux as int, xenon as int, NEUTRON_MAX as int,
            CONCENTRATION_MAX as int);
    }
    let di: i64 = mul_fx(IODINE_YIELD_RATE, neutron_flux) - mul_fx(LAMBDA_IODINE, iodine);
    let burn_base: i64 = mul_fx(neutron_flux, xenon);
    proof {
        lemma_fmul_fits(XENON_ABSORB_RATE as int, fmul(neutron_flux as int, xenon as int),
            XENON_ABSORB_RATE as int, 10_000_000_000_000);
    }
    let dxe: i64 = mul_fx(XENON_YIELD_RATE, neutron_flux) + mul_fx(LAMBDA_IODINE, iodine)
        - mul_fx(LAMBDA_XENON, xenon) - mul_fx(XENON_ABSORB_RATE, burn_base);
    proof {
        lemma_fmul_fits(dt as int, di as int, DT_MAX as int, 100_000_000_000);
        lemma_fmul_fits(dt as int, dxe as int, DT_MAX as int, 200_000_000_000);
    }
    let i_new: i64 = clamp_fx(iodine + mul_fx(dt, di), 0, CONCENTRATION_MAX);
    let xe_new: i64 = clamp_fx(xenon + mul_fx(dt, dxe), 0, CONCENTRATION_MAX);
    (i_new, xe_new)
}

/// Equilibrium iodine concentration at a given power fraction:
/// production balances decay.
pub open spec fn spec_eq_iodine(pf: int) -> int {
    fdiv(fmul(IODINE_YIELD_RATE as int, pf), LAMBDA_IODINE as int)
}

/// Equilibrium xenon concentration at a given power fraction.
pub open spec fn spec_eq_xenon(pf: int) -> int {
    fdiv(fmul(XENON_YIELD_RATE as int, pf) + fmul(LAMBDA_IODINE as int, spec_eq_iodine(pf)),
        LAMBDA_XENON + fmul(XENON_ABSORB_RATE as int, pf))
}

/// Equilibrium iodine and xenon concentrations for a given power
/// fraction (1.0 = nominal power).
pub fn calc_equilibrium_xenon(power_fraction: i64) -> (r: (i64, i64))
    requires
        0 <= power_fraction <= NEUTRON_MAX,
    ensures
        r.0 as int == spec_eq_iodine(power_fraction as int),
        r.1 as int == spec_eq_xenon(power_fraction as int),
        0 <= r.0,
        0 <= r.1,
{
    proof {
        lemma_fmul_fits(IODINE_YIELD_RATE as int, power_fraction as int,
            IODINE_YIELD_RATE as int, NEUTRON_MAX as int);
        assert(IODINE_YIELD_RATE as int * power_fraction as int >= 0) by (nonlinear_arith)
            requires
                power_fraction >= 0,
        ;
        crate::fx::lemma_tdiv_abs(IODINE_YIELD_RATE as int * power_fraction as int,
            SCALE as int);
    }
    let i_prod: i64 = mul_fx(IODINE_YIELD_RATE, power_fraction);
    proof {
        lemma_muldiv_fits(i_prod as int, SCALE as int, LAMBDA_IODINE as int, 290_000,
            SCALE as int, LAMBDA_IODINE as int);
        vstd::arithmetic::div_mod::lemma_div_pos_is_pos(i_prod as int * (SCALE as int),
            LAMBDA_IODINE as int);
        assert(i_prod as int * (SCALE as int) >= 0) by (nonlinear_arith)
            requires
                i_prod >= 0,
        ;
    }
    let i_eq: i64 = div_fx(i_prod, LAMBDA_IODINE);
    proof {
        lemma_fmul_fits(XENON_YIELD_RATE as int, power_fraction as int,
            XENON_YIELD_RATE as int, NEUTRON_MAX as int);
        lemma_fmul_fits(LAMBDA_IODINE as int, i_eq as int, LAMBDA_IODINE as int,
            10_000_000_000);
        lemma_fmul_fits(XENON_ABSORB_RATE as int, power_fraction as int,
            XENON_ABSORB_RATE as int, NEUTRON_MAX as int);
        assert(XENON_YIELD_RATE as int * power_fraction as int >= 0
            && XENON_ABSORB_RATE as int * power_fraction as int >= 0
            && LAMBDA_IODINE as int * i_eq as int >= 0) by (nonlinear_arith)
            requires
                power_fraction >= 0,
                i_eq >= 0,
        ;
        crate::fx::lemma_tdiv_abs(XENON_YIELD_RATE as int * power_fraction as int,
            SCALE as int);
        crate::fx::lemma_tdiv_abs(XENON_ABSORB_RATE as int * power_fraction as int,
            SCALE as int);
        crate::fx::lemma_tdiv_abs(LAMBDA_IODINE as int * i_eq as int, SCALE as int);
    }
    let num: i64 = mul_fx(XENON_YIELD_RATE, power_fraction) + mul_fx(LAMBDA_IODINE, i_eq);
    let den: i64 = LAMBDA_XENON + mul_fx(XENON_ABSORB_RATE, power_fraction);
    proof {
        lemma_muldiv_fits(num as int, SCALE as int, den as int, 1_000_000, SCALE as int,
            LAMBDA_XENON as int);
        assert(num as int * (SCALE as int) >= 0) by (nonlinear_arith)
            requires
                num >= 0,
        ;
        vstd::arithmetic::div_mod::lemma_div_pos_is_pos(num as int * (SCALE as int),
            den as int);
    }
    let xe_eq: i64 = div_fx(num, den);
    (i_eq, xe_eq)
}

} // verus!
