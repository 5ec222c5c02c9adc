//! Return codes, warning flags and enumerated input values.
use vstd::prelude::*;

verus! {

/// The prediction completed without warnings.
pub const SUCCESS: i32 = 0;

/// The prediction completed but raised at least one warning.
pub const SUCCESS_WITH_WARNINGS: i32 = 1;

/// Transmitter structural height outside 0.5 to 3000 meters.
pub const ERROR_TX_TERMINAL_HEIGHT: i32 = 1000;
/// Receiver structural height outside 0.5 to 3000 meters.
pub const ERROR_RX_TERMINAL_HEIGHT: i32 = 1001;
/// Radio climate code outside 1 to 7.
pub const ERROR_INVALID_RADIO_CLIMATE: i32 = 1002;
/// Time percentage not strictly between 0 and 100.
pub const ERROR_INVALID_TIME: i32 = 1003;
/// Location percentage not strictly between 0 and 100.
pub const ERROR_INVALID_LOCATION: i32 = 1004;
/// Situation percentage not strictly between 0 and 100.
pub const ERROR_INVALID_SITUATION: i32 = 1005;
/// Confidence percentage not strictly between 0 and 100.
pub const ERROR_INVALID_CONFIDENCE: i32 = 1006;
/// Reliability percentage not strictly between 0 and 100.
pub const ERROR_INVALID_RELIABILITY: i32 = 1007;
/// Surface refractivity `N_0` outside 250 to 400 N-units.
pub const ERROR_REFRACTIVITY: i32 = 1008;
/// Frequency outside 20 to 20000 MHz.
pub const ERROR_FREQUENCY: i32 = 1009;
/// Polarization code other than 0 or 1.
pub const ERROR_POLARIZATION: i32 = 1010;
/// Relative permittivity not greater than 1.
pub const ERROR_EPSILON: i32 = 1011;
/// Conductivity not greater than 0.
pub const ERROR_SIGMA: i32 = 1012;
/// The imaginary part of the ground impedance is at least its real part.
pub const ERROR_GROUND_IMPEDANCE: i32 = 1013;
/// Mode of variability outside the accepted codes.
pub const ERROR_MDVAR: i32 = 1014;
/// The computed effective earth radius is outside its valid range.
pub const ERROR_EFFECTIVE_EARTH: i32 = 1016;
/// Path distance not greater than 0.
pub const ERROR_PATH_DISTANCE: i32 = 1017;
/// Terrain irregularity parameter below 0.
pub const ERROR_DELTA_H: i32 = 1018;
/// Transmitter siting criteria other than 0, 1 or 2.
pub const ERROR_TX_SITING_CRITERIA: i32 = 1019;
/// Receiver siting criteria other than 0, 1 or 2.
pub const ERROR_RX_SITING_CRITERIA: i32 = 1020;
/// The computed surface refractivity is below 150 N-units.
pub const ERROR_SURFACE_REFRACTIVITY_SMALL: i32 = 1021;
/// The computed surface refractivity is above 400 N-units.
pub const ERROR_SURFACE_REFRACTIVITY_LARGE: i32 = 1022;

/// The empty warning bitmask.
pub const NO_WARNINGS: i32 = 0x0000;
/// Transmitter height outside 1 to 1000 meters.
pub const WARN_TX_TERMINAL_HEIGHT: i32 = 0x0001;
/// Receiver height outside 1 to 1000 meters.
pub const WARN_RX_TERMINAL_HEIGHT: i32 = 0x0002;
/// Frequency outside 40 to 10000 MHz.
pub const WARN_FREQUENCY: i32 = 0x0004;
/// Path distance above 1000 km.
pub const WARN_PATH_DISTANCE_TOO_BIG_1: i32 = 0x0008;
/// Path distance above 2000 km.
pub const WARN_PATH_DISTANCE_TOO_BIG_2: i32 = 0x0010;
/// Path distance below the minimum separation of the terminals.
pub const WARN_PATH_DISTANCE_TOO_SMALL_1: i32 = 0x0020;
/// Path distance below 1 km.
pub const WARN_PATH_DISTANCE_TOO_SMALL_2: i32 = 0x0040;
/// Transmitter horizon elevation angle steeper than 200 mrad.
pub const WARN_TX_HORIZON_ANGLE: i32 = 0x0080;
/// Receiver horizon elevation angle steeper than 200 mrad.
pub const WARN_RX_HORIZON_ANGLE: i32 = 0x0100;
/// Transmitter horizon distance below a tenth of its smooth-earth value.
pub const WARN_TX_HORIZON_DISTANCE_1: i32 = 0x0200;
/// Receiver horizon distance below a tenth of its smooth-earth value.
pub const WARN_RX_HORIZON_DISTANCE_1: i32 = 0x0400;
/// Transmitter horizon distance above three times its smooth-earth value.
pub const WARN_TX_HORIZON_DISTANCE_2: i32 = 0x0800;
/// Receiver horizon distance above three times its smooth-earth value.
pub const WARN_RX_HORIZON_DISTANCE_2: i32 = 0x1000;
/// A standard normal deviate of the variability beyond 3.10.
pub const WARN_EXTREME_VARIABILITIES: i32 = 0x2000;
/// The computed surface refractivity is below 250 N-units.
pub const WARN_SURFACE_REFRACTIVITY: i32 = 0x4000;

/// Horizontal polarization.
pub const POLARIZATION_HORIZONTAL: i32 = 0;
/// Vertical polarization.
pub const POLARIZATION_VERTICAL: i32 = 1;

/// Terminal sited at random.
pub const SITING_CRITERIA_RANDOM: i32 = 0;
/// Terminal sited with care.
pub const SITING_CRITERIA_CAREFUL: i32 = 1;
/// Terminal sited with great care.
pub const SITING_CRITERIA_VERY_CAREFUL: i32 = 2;

/// No propagation mode determined yet.
pub const MODE_NOT_SET: i32 = 0;
/// The path is within line of sight.
pub const MODE_LINE_OF_SIGHT: i32 = 1;
/// The path is dominated by diffraction.
pub const MODE_DIFFRACTION: i32 = 2;
/// The path is dominated by troposcatter.
pub const MODE_TROPOSCATTER: i32 = 3;

/// Point-to-point prediction, from a terrain profile.
pub const MODE_P2P: i32 = 0;
/// Area prediction, from a terrain irregularity parameter.
pub const MODE_AREA: i32 = 1;

/// Radio climate: equatorial.
pub const CLIMATE_EQUATORIAL: i32 = 1;
/// Radio climate: continental subtropical.
pub const CLIMATE_CONTINENTAL_SUBTROPICAL: i32 = 2;
/// Radio climate: maritime subtropical.
pub const CLIMATE_MARITIME_SUBTROPICAL: i32 = 3;
/// Radio climate: desert.
pub const CLIMATE_DESERT: i32 = 4;
/// Radio climate: continental temperate.
pub const CLIMATE_CONTINENTAL_TEMPERATE: i32 = 5;
/// Radio climate: maritime temperate over land.
pub const CLIMATE_MARITIME_TEMPERATE_OVER_LAND: i32 = 6;
/// Radio climate: maritime temperate over sea.
pub const CLIMATE_MARITIME_TEMPERATE_OVER_SEA: i32 = 7;

/// Mode of variability: single message.
pub const MDVAR_SINGLE_MESSAGE: i32 = 0;
/// Mode of variability: accidental.
pub const MDVAR_ACCIDENTAL: i32 = 1;
/// Mode of variability: mobile.
pub const MDVAR_MOBILE: i32 = 2;
/// Mode of variability: broadcast.
pub const MDVAR_BROADCAST: i32 = 3;
/// Added to a mode of variability: no location variability.
pub const MDVAR_ELIMINATE_LOCATION: i32 = 10;
/// Added to a mode of variability: no situation variability.
pub const MDVAR_ELIMINATE_SITUATION: i32 = 20;

/// A radio climate code is one of the seven climates.
pub open spec fn is_valid_climate(climate: i32) -> bool {
    1 <= climate <= 7
}

/// A polarization code is horizontal or vertical.
pub open spec fn is_valid_polarization(pol: i32) -> bool {
    pol == POLARIZATION_HORIZONTAL || pol == POLARIZATION_VERTICAL
}

/// A siting criteria code is random, careful or very careful.
pub open spec fn is_valid_siting_criteria(criteria: i32) -> bool {
    criteria == SITING_CRITERIA_RANDOM || criteria == SITING_CRITERIA_CAREFUL
        || criteria == SITING_CRITERIA_VERY_CAREFUL
}

/// A mode-of-variability code is 0 to 3, optionally plus 10, 20 or 30.
pub open spec fn is_valid_mdvar(mdvar: i32) -> bool {
    ||| 0 <= mdvar <= 3
    ||| 10 <= mdvar <= 13
    ||| 20 <= mdvar <= 23
    ||| 30 <= mdvar <= 33
}

/// Table index of a radio climate: climates 1 to 7 map to 0 to 6.
pub fn climate_index(climate: i32) -> (index: usize)
    requires
        is_valid_climate(climate),
    ensures
        index == climate - 1,
        index < 7,
{
    (climate - 1) as usize
}

} // verus!
