//! The decisions of the reference attenuation computation: which path
//! geometries are refused, which warnings a path raises, and which
//! propagation mode a path distance falls into.
use vstd::prelude::*;
use crate::codes::{
    ERROR_EFFECTIVE_EARTH, ERROR_GROUND_IMPEDANCE, ERROR_SURFACE_REFRACTIVITY_LARGE,
    ERROR_SURFACE_REFRACTIVITY_SMALL, MODE_DIFFRACTION, MODE_LINE_OF_SIGHT, MODE_TROPOSCATTER,
    SUCCESS, WARN_PATH_DISTANCE_TOO_BIG_1, WARN_PATH_DISTANCE_TOO_BIG_2,
    WARN_PATH_DISTANCE_TOO_SMALL_1, WARN_PATH_DISTANCE_TOO_SMALL_2, WARN_RX_HORIZON_ANGLE,
    WARN_RX_HORIZON_DISTANCE_1, WARN_RX_HORIZON_DISTANCE_2, WARN_SURFACE_REFRACTIVITY,
    WARN_TX_HORIZON_ANGLE, WARN_TX_HORIZON_DISTANCE_1, WARN_TX_HORIZON_DISTANCE_2,
};
use crate::validation::flag_if;

verus! {

/// Where the computed surface refractivity lies: below 150 N-units, from
/// 150 to below 250, from 250 to 400, or above 400.
#[derive(Clone, Copy, Debug, PartialEq, Eq, Structural)]
pub enum SurfaceRefractivity {
    TooSmall,
    Low,
    Nominal,
    TooLarge,
}

/// The comparisons of the terminal horizons: an elevation angle steeper
/// than 200 mrad; a horizon distance below a tenth, or above three times,
/// the smooth-earth horizon distance.
#[derive(Clone, Copy, Debug)]
pub struct HorizonChecks {
    pub tx_angle_steep: bool,
    pub rx_angle_steep: bool,
    pub tx_distance_short: bool,
    pub rx_distance_short: bool,
    pub tx_distance_long: bool,
    pub rx_distance_long: bool,
}

/// The comparisons of a path's geometry and ground made before any
/// attenuation is computed.
#[derive(Clone, Copy, Debug)]
pub struct PathChecks {
    pub horizons: HorizonChecks,
    pub surface_refractivity: SurfaceRefractivity,
    /// The effective earth radius lies within 4000 km to 13333.333 km.
    pub effective_earth_valid: bool,
    /// The real part of the ground impedance exceeds the magnitude of its
    /// imaginary part.
    pub ground_impedance_valid: bool,
}

/// The comparisons of the path distance: below the minimum separation
/// that the effective heights allow, below 1 km, above 1000 km, above
/// 2000 km.
#[derive(Clone, Copy, Debug)]
pub struct DistanceChecks {
    pub below_min_separation: bool,
    pub below_1km: bool,
    pub above_1000km: bool,
    pub above_2000km: bool,
}

/// The warnings of the terminal horizons.
pub open spec fn horizon_warnings(h: HorizonChecks) -> i32 {
    flag_if(h.tx_angle_steep, WARN_TX_HORIZON_ANGLE) | flag_if(
        h.rx_angle_steep,
        WARN_RX_HORIZON_ANGLE,
    ) | flag_if(h.tx_distance_short, WARN_TX_HORIZON_DISTANCE_1) | flag_if(
        h.rx_distance_short,
        WARN_RX_HORIZON_DISTANCE_1,
    ) | flag_if(h.tx_distance_long, WARN_TX_HORIZON_DISTANCE_2) | flag_if(
        h.rx_distance_long,
        WARN_RX_HORIZON_DISTANCE_2,
    )
}

/// The code of the path checks: the surface refractivity below or above
/// its valid range, then the effective earth radius, then the ground
/// impedance; `SUCCESS` when none fails.
pub open spec fn path_error(c: PathChecks) -> i32 {
    if c.surface_refractivity is TooSmall {
        ERROR_SURFACE_REFRACTIVITY_SMALL
    } else if c.surface_refractivity is TooLarge {
        ERROR_SURFACE_REFRACTIVITY_LARGE
    } else if !c.effective_earth_valid {
        ERROR_EFFECTIVE_EARTH
    } else if !c.ground_impedance_valid {
        ERROR_GROUND_IMPEDANCE
    } else {
        SUCCESS
    }
}

/// The warnings of the path checks: those of the horizons, and a low
/// surface refractivity.
pub open spec fn path_warnings(c: PathChecks) -> i32 {
    horizon_warnings(c.horizons) | flag_if(
        c.surface_refractivity is Low,
        WARN_SURFACE_REFRACTIVITY,
    )
}

/// The warnings of the path distance.
pub open spec fn distance_warnings(c: DistanceChecks) -> i32 {
    flag_if(c.below_min_separation, WARN_PATH_DISTANCE_TOO_SMALL_1) | flag_if(
        c.below_1km,
        WARN_PATH_DISTANCE_TOO_SMALL_2,
    ) | flag_if(c.above_1000km, WARN_PATH_DISTANCE_TOO_BIG_1) | flag_if(
        c.above_2000km,
        WARN_PATH_DISTANCE_TOO_BIG_2,
    )
}

/// The propagation mode of a path: line of sight within the smooth-earth
/// horizon distance; beyond it, troposcatter past the crossover distance
/// and diffraction before it.
pub open spec fn spec_propagation_mode(
    within_smooth_earth_horizon: bool,
    beyond_scatter_crossover: bool,
) -> i32 {
    if within_smooth_earth_horizon {
        MODE_LINE_OF_SIGHT
    } else if beyond_scatter_crossover {
        MODE_TROPOSCATTER
    } else {
        MODE_DIFFRACTION
    }
}

/// `flag` when `cond` holds, else no flag.
fn flag_when(cond: bool, flag: i32) -> (w: i32)
    ensures
        w == flag_if(cond, flag),
{
    if cond {
        flag
    } else {
        0
    }
}

/// Checks a path before its attenuation is computed. Returns `SUCCESS` or
/// the error of the first failing check; adds the horizon warnings to
/// `warnings` in any case, and the low-refractivity warning when the
/// surface refractivity is low but valid.
pub fn check_path(checks: &PathChecks, warnings: &mut i32) -> (rc: i32)
    ensures
        rc == path_error(*checks),
        *final(warnings) == *old(warnings) | path_warnings(*checks),
        rc == ERROR_SURFACE_REFRACTIVITY_SMALL <==> checks.surface_refractivity is TooSmall,
        rc == ERROR_SURFACE_REFRACTIVITY_LARGE <==> checks.surface_refractivity is TooLarge,
        rc == ERROR_EFFECTIVE_EARTH <==> !(checks.surface_refractivity is TooSmall)
            && !(checks.surface_refractivity is TooLarge) && !checks.effective_earth_valid,
        rc == ERROR_GROUND_IMPEDANCE <==> !(checks.surface_refractivity is TooSmall)
            && !(checks.surface_refractivity is TooLarge) && checks.effective_earth_valid
            && !checks.ground_impedance_valid,
{
    let h = &checks.horizons;
    let hw = flag_when(h.tx_angle_steep, WARN_TX_HORIZON_ANGLE) | flag_when(
        h.rx_angle_steep,
        WARN_RX_HORIZON_ANGLE,
    ) | flag_when(h.tx_distance_short, WARN_TX_HORIZON_DISTANCE_1) | flag_when(
        h.rx_distance_short,
        WARN_RX_HORIZON_DISTANCE_1,
    ) | flag_when(h.tx_distance_long, WARN_TX_HORIZON_DISTANCE_2) | flag_when(
        h.rx_distance_long,
        WARN_RX_HORIZON_DISTANCE_2,
    );
    match checks.surface_refractivity {
        SurfaceRefractivity::TooSmall => {
            *warnings = *warnings | (hw | 0);
            return ERROR_SURFACE_REFRACTIVITY_SMALL;
        },
        SurfaceRefractivity::TooLarge => {
            *warnings = *warnings | (hw | 0);
            return ERROR_SURFACE_REFRACTIVITY_LARGE;
        },
        SurfaceRefractivity::Low => {
            *warnings = *warnings | (hw | WARN_SURFACE_REFRACTIVITY);
        },
        SurfaceRefractivity::Nominal => {
            *warnings = *warnings | (hw | 0);
        },
    }
    if !checks.effective_earth_valid {
        return ERROR_EFFECTIVE_EARTH;
    }
    if !checks.ground_impedance_valid {
        return ERROR_GROUND_IMPEDANCE;
    }
    SUCCESS
}

/// Adds the warnings of the path distance to `warnings`.
pub fn raise_distance_warnings(checks: &DistanceChecks, warnings: &mut i32)
    ensures
        *final(warnings) == *old(warnings) | distance_warnings(*checks),
{
    let w = flag_when(checks.below_min_separation, WARN_PATH_DISTANCE_TOO_SMALL_1) | flag_when(
        checks.below_1km,
        WARN_PATH_DISTANCE_TOO_SMALL_2,
    ) | flag_when(checks.above_1000km, WARN_PATH_DISTANCE_TOO_BIG_1) | flag_when(
        checks.above_2000km,
        WARN_PATH_DISTANCE_TOO_BIG_2,
    );
    *warnings = *warnings | w;
}

/// The propagation mode of a path; see [`spec_propagation_mode`].
pub fn propagation_mode(within_smooth_earth_horizon: bool, beyond_scatter_crossover: bool) -> (mode:
    i32)
    ensures
        mode == spec_propagation_mode(within_smooth_earth_horizon, beyond_scatter_crossover),
        mode == MODE_LINE_OF_SIGHT <==> within_smooth_earth_horizon,
        mode == MODE_TROPOSCATTER <==> !within_smooth_earth_horizon && beyond_scatter_crossover,
        mode == MODE_DIFFRACTION <==> !within_smooth_earth_horizon && !beyond_scatter_crossover,
{
    if within_smooth_earth_horizon {
        MODE_LINE_OF_SIGHT
    } else if beyond_scatter_crossover {
        MODE_TROPOSCATTER
    } else {
        MODE_DIFFRACTION
    }
}

/// Every path falls into exactly one of the three propagation modes, line
/// of sight exactly when it lies within the smooth-earth horizon distance.
pub proof fn lemma_propagation_mode_total(within: bool, beyond: bool)
    ensures
        ({
            let m = spec_propagation_mode(within, beyond);
            &&& m == MODE_LINE_OF_SIGHT || m == MODE_DIFFRACTION || m == MODE_TROPOSCATTER
            &&& (m == MODE_LINE_OF_SIGHT) <==> within
            &&& (m == MODE_TROPOSCATTER) <==> (!within && beyond)
        }),
{
}

/// A path passes its checks exactly when the surface refractivity, the
/// effective earth radius and the ground impedance are all valid.
pub proof fn lemma_path_checks_succeed_iff_valid(c: PathChecks)
    ensures
        (path_error(c) == SUCCESS) <==> {
            &&& !(c.surface_refractivity is TooSmall)
            &&& !(c.surface_refractivity is TooLarge)
            &&& c.effective_earth_valid
            &&& c.ground_impedance_valid
        },
{
}

/// Each warning flag of the path checks is set exactly when its condition
/// holds, and no other flag is set.
pub proof fn lemma_path_warning_flags(c: PathChecks)
    ensures
        ({
            let w = path_warnings(c);
            &&& (w & WARN_TX_HORIZON_ANGLE != 0) <==> c.horizons.tx_angle_steep
            &&& (w & WARN_RX_HORIZON_ANGLE != 0) <==> c.horizons.rx_angle_steep
            &&& (w & WARN_TX_HORIZON_DISTANCE_1 != 0) <==> c.horizons.tx_distance_short
            &&& (w & WARN_RX_HORIZON_DISTANCE_1 != 0) <==> c.horizons.rx_distance_short
            &&& (w & WARN_TX_HORIZON_DISTANCE_2 != 0) <==> c.horizons.tx_distance_long
            &&& (w & WARN_RX_HORIZON_DISTANCE_2 != 0) <==> c.horizons.rx_distance_long
            &&& (w & WARN_SURFACE_REFRACTIVITY != 0) <==> c.surface_refractivity is Low
            &&& w & !(WARN_TX_HORIZON_ANGLE | WARN_RX_HORIZON_ANGLE | WARN_TX_HORIZON_DISTANCE_1
                | WARN_RX_HORIZON_DISTANCE_1 | WARN_TX_HORIZON_DISTANCE_2
                | WARN_RX_HORIZON_DISTANCE_2 | WARN_SURFACE_REFRACTIVITY) == 0
        }),
{
    let h = c.horizons;
    let a = flag_if(h.tx_angle_steep, 0x0080);
    let b = flag_if(h.rx_angle_steep, 0x0100);
    let d = flag_if(h.tx_distance_short, 0x0200);
    let e = flag_if(h.rx_distance_short, 0x0400);
    let f = flag_if(h.tx_distance_long, 0x0800);
    let g = flag_if(h.rx_distance_long, 0x1000);
    let s = flag_if(c.surface_refractivity is Low, 0x4000);
    assert(path_warnings(c) == a | b | d | e | f | g | s);
    assert((a == 0 || a == 0x0080) && (b == 0 || b == 0x0100) && (d == 0 || d == 0x0200) && (e
        == 0 || e == 0x0400) && (f == 0 || f == 0x0800) && (g == 0 || g == 0x1000) && (s == 0 || s
        == 0x4000) ==> {
        let w = a | b | d | e | f | g | s;
        &&& (w & 0x0080 != 0 <==> a != 0)
        &&& (w & 0x0100 != 0 <==> b != 0)
        &&& (w & 0x0200 != 0 <==> d != 0)
        &&& (w & 0x0400 != 0 <==> e != 0)
        &&& (w & 0x0800 != 0 <==> f != 0)
        &&& (w & 0x1000 != 0 <==> g != 0)
        &&& (w & 0x4000 != 0 <==> s != 0)
        &&& w & !(0x0080i32 | 0x0100i32 | 0x0200i32 | 0x0400i32 | 0x0800i32 | 0x1000i32
            | 0x4000i32) == 0
    }) by (bit_vector);
}

/// Each warning flag of the path distance is set exactly when its
/// condition holds, and no other flag is set.
pub proof fn lemma_distance_warning_flags(c: DistanceChecks)
    ensures
        ({
            let w = distance_warnings(c);
            &&& (w & WARN_PATH_DISTANCE_TOO_SMALL_1 != 0) <==> c.below_min_separation
            &&& (w & WARN_PATH_DISTANCE_TOO_SMALL_2 != 0) <==> c.below_1km
            &&& (w & WARN_PATH_DISTANCE_TOO_BIG_1 != 0) <==> c.above_1000km
            &&& (w & WARN_PATH_DISTANCE_TOO_BIG_2 != 0) <==> c.above_2000km
            &&& w & !(WARN_PATH_DISTANCE_TOO_SMALL_1 | WARN_PATH_DISTANCE_TOO_SMALL_2
                | WARN_PATH_DISTANCE_TOO_BIG_1 | WARN_PATH_DISTANCE_TOO_BIG_2) == 0
        }),
{
    let a = flag_if(c.below_min_separation, 0x0020);
    let b = flag_if(c.below_1km, 0x0040);
    let d = flag_if(c.above_1000km, 0x0008);
    let e = flag_if(c.above_2000km, 0x0010);
    assert(distance_warnings(c) == a | b | d | e);
    assert((a == 0 || a == 0x0020) && (b == 0 || b == 0x0040) && (d == 0 || d == 0x0008) && (e
        == 0 || e == 0x0010) ==> {
        let w = a | b | d | e;
        &&& (w & 0x0020 != 0 <==> a != 0)
        &&& (w & 0x0040 != 0 <==> b != 0)
        &&& (w & 0x0008 != 0 <==> d != 0)
        &&& (w & 0x0010 != 0 <==> e != 0)
        &&& w & !(0x0020i32 | 0x0040i32 | 0x0008i32 | 0x0010i32) == 0
    }) by (bit_vector);
}

/// The path and distance checks add warnings and never clear one that was
/// already set.
pub proof fn lemma_path_checks_keep_warnings(before: i32, c: PathChecks, d: DistanceChecks)
    ensures
        (before | path_warnings(c)) & before == before,
        (before | distance_warnings(d)) & before == before,
{
    let w = path_warnings(c);
    let v = distance_warnings(d);
    assert((before | w) & before == before) by (bit_vector);
    assert((before | v) & before == before) by (bit_vector);
}

/// The path checks report the first failing check: a too small surface
/// refractivity, then a too large one, then an invalid effective earth
/// radius, then an invalid ground impedance; success exactly when none
/// fails.
pub proof fn lemma_path_reports_first_failure(c: PathChecks)
    ensures
        ({
            let e = path_error(c);
            let small = c.surface_refractivity is TooSmall;
            let large = c.surface_refractivity is TooLarge;
            &&& (e == ERROR_SURFACE_REFRACTIVITY_SMALL <==> small)
            &&& (e == ERROR_SURFACE_REFRACTIVITY_LARGE <==> large)
            &&& (e == ERROR_EFFECTIVE_EARTH <==> !small && !large && !c.effective_earth_valid)
            &&& (e == ERROR_GROUND_IMPEDANCE <==> !small && !large && c.effective_earth_valid
                && !c.ground_impedance_valid)
            &&& (e == SUCCESS <==> !small && !large && c.effective_earth_valid
                && c.ground_impedance_valid)
        }),
{
}

} // verus!
