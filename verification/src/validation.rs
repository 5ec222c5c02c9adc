//! Validation of the prediction inputs: which inputs are accepted, which
//! error is reported first, and which warnings are raised.
//!
//! The floating-point inputs reach this module already placed in their
//! ranges (see [`Band`]); the integer inputs are checked here directly.
use vstd::prelude::*;
use crate::codes::{
    is_valid_climate, is_valid_mdvar, is_valid_polarization, is_valid_siting_criteria,
    ERROR_DELTA_H, ERROR_EPSILON, ERROR_FREQUENCY, ERROR_INVALID_CONFIDENCE,
    ERROR_INVALID_LOCATION, ERROR_INVALID_RADIO_CLIMATE, ERROR_INVALID_RELIABILITY,
    ERROR_INVALID_SITUATION, ERROR_INVALID_TIME, ERROR_MDVAR, ERROR_PATH_DISTANCE,
    ERROR_POLARIZATION, ERROR_REFRACTIVITY, ERROR_RX_SITING_CRITERIA, ERROR_RX_TERMINAL_HEIGHT,
    ERROR_SIGMA, ERROR_TX_SITING_CRITERIA, ERROR_TX_TERMINAL_HEIGHT, POLARIZATION_HORIZONTAL,
    POLARIZATION_VERTICAL, SITING_CRITERIA_CAREFUL, SITING_CRITERIA_RANDOM,
    SITING_CRITERIA_VERY_CAREFUL, SUCCESS, WARN_FREQUENCY, WARN_RX_TERMINAL_HEIGHT,
    WARN_TX_TERMINAL_HEIGHT,
};

verus! {

/// Where a floating-point input lies with respect to its nominal range
/// (inside which no warning is raised) and its valid range (outside which
/// the prediction is refused). The valid range contains the nominal one.
#[derive(Clone, Copy, Debug, PartialEq, Eq, Structural)]
pub enum Band {
    /// Inside the nominal range.
    Nominal,
    /// Inside the valid range but outside the nominal range: a warning.
    Caution,
    /// Outside the valid range: an error.
    OutOfRange,
}

/// The floating-point inputs common to all prediction modes, placed in
/// their ranges.
///
/// - `tx_height`, `rx_height`: nominal 1 to 1000 m, valid 0.5 to 3000 m;
/// - `frequency`: nominal 40 to 10000 MHz, valid 20 to 20000 MHz;
/// - `refractivity_valid`: `N_0` within 250 to 400 N-units;
/// - `epsilon_valid`: relative permittivity greater than 1;
/// - `sigma_valid`: conductivity greater than 0;
/// - `time_valid`, `location_valid`, `situation_valid`: the percentage is
///   strictly between 0 and 100.
#[derive(Clone, Copy, Debug)]
pub struct InputRanges {
    pub tx_height: Band,
    pub rx_height: Band,
    pub frequency: Band,
    pub refractivity_valid: bool,
    pub epsilon_valid: bool,
    pub sigma_valid: bool,
    pub time_valid: bool,
    pub location_valid: bool,
    pub situation_valid: bool,
}

/// The floating-point inputs of the area mode, placed in their ranges:
/// the path distance is greater than 0, the terrain irregularity parameter
/// is at least 0.
#[derive(Clone, Copy, Debug)]
pub struct AreaRanges {
    pub distance_valid: bool,
    pub delta_h_valid: bool,
}

/// `flag` when `cond` holds, else no flag.
pub open spec fn flag_if(cond: bool, flag: i32) -> i32 {
    if cond {
        flag
    } else {
        0
    }
}

/// The warning a band raises: any band but the nominal one.
pub open spec fn band_flag(band: Band, flag: i32) -> i32 {
    flag_if(!(band is Nominal), flag)
}

/// Every input is accepted; the order of the checks plays no part here.
pub open spec fn inputs_valid(r: InputRanges, climate: i32, pol: i32, mdvar: i32) -> bool {
    &&& !(r.tx_height is OutOfRange)
    &&& !(r.rx_height is OutOfRange)
    &&& is_valid_climate(climate)
    &&& r.refractivity_valid
    &&& !(r.frequency is OutOfRange)
    &&& is_valid_polarization(pol)
    &&& r.epsilon_valid
    &&& r.sigma_valid
    &&& is_valid_mdvar(mdvar)
    &&& r.situation_valid
    &&& r.time_valid
    &&& r.location_valid
}

/// The code that input validation returns: the error of the first failing
/// check, in the order transmitter height, receiver height, climate,
/// refractivity, frequency, polarization, permittivity, conductivity, mode
/// of variability, situation, time, location; `SUCCESS` when none fails.
pub open spec fn input_error(r: InputRanges, climate: i32, pol: i32, mdvar: i32) -> i32 {
    if r.tx_height is OutOfRange {
        ERROR_TX_TERMINAL_HEIGHT
    } else if r.rx_height is OutOfRange {
        ERROR_RX_TERMINAL_HEIGHT
    } else if !is_valid_climate(climate) {
        ERROR_INVALID_RADIO_CLIMATE
    } else if !r.refractivity_valid {
        ERROR_REFRACTIVITY
    } else if r.frequency is OutOfRange {
        ERROR_FREQUENCY
    } else if !is_valid_polarization(pol) {
        ERROR_POLARIZATION
    } else if !r.epsilon_valid {
        ERROR_EPSILON
    } else if !r.sigma_valid {
        ERROR_SIGMA
    } else if !is_valid_mdvar(mdvar) {
        ERROR_MDVAR
    } else if !r.situation_valid {
        ERROR_INVALID_SITUATION
    } else if !r.time_valid {
        ERROR_INVALID_TIME
    } else if !r.location_valid {
        ERROR_INVALID_LOCATION
    } else {
        SUCCESS
    }
}

/// The warnings that input validation raises: those of the transmitter
/// height, of the receiver height and of the frequency, each as far as the
/// checks got before the first failing one.
pub open spec fn input_warnings(r: InputRanges, climate: i32) -> i32 {
    let tx = band_flag(r.tx_height, WARN_TX_TERMINAL_HEIGHT);
    let rx = band_flag(r.rx_height, WARN_RX_TERMINAL_HEIGHT);
    let f = band_flag(r.frequency, WARN_FREQUENCY);
    if r.tx_height is OutOfRange {
        tx
    } else if r.rx_height is OutOfRange || !is_valid_climate(climate) || !r.refractivity_valid {
        tx | rx
    } else {
        tx | rx | f
    }
}

/// The code that area-mode validation returns: that of [`input_error`],
/// then the path distance, the terrain irregularity parameter, and the
/// transmitter and receiver siting criteria, in this order.
pub open spec fn area_input_error(
    r: InputRanges,
    a: AreaRanges,
    climate: i32,
    pol: i32,
    mdvar: i32,
    tx_site: i32,
    rx_site: i32,
) -> i32 {
    let e = input_error(r, climate, pol, mdvar);
    if e != SUCCESS {
        e
    } else if !a.distance_valid {
        ERROR_PATH_DISTANCE
    } else if !a.delta_h_valid {
        ERROR_DELTA_H
    } else if !is_valid_siting_criteria(tx_site) {
        ERROR_TX_SITING_CRITERIA
    } else if !is_valid_siting_criteria(rx_site) {
        ERROR_RX_SITING_CRITERIA
    } else {
        SUCCESS
    }
}

/// The code that a confidence/reliability prediction reports for the code
/// of the underlying time/location/situation prediction, which received
/// the reliability as time and the confidence as situation.
pub open spec fn cr_code(code: i32) -> i32 {
    if code == ERROR_INVALID_TIME {
        ERROR_INVALID_RELIABILITY
    } else if code == ERROR_INVALID_SITUATION {
        ERROR_INVALID_CONFIDENCE
    } else {
        code
    }
}

/// Adds `flags` to the warning bitmask.
fn raise(warnings: &mut i32, flags: i32)
    ensures
        *final(warnings) == *old(warnings) | flags,
{
    *warnings = *warnings | flags;
}

/// The warning flag of a band.
fn band_warning(band: Band, flag: i32) -> (w: i32)
    ensures
        w == band_flag(band, flag),
{
    match band {
        Band::Nominal => 0,
        _ => flag,
    }
}

/// Checks the inputs common to all prediction modes. Returns `SUCCESS` or
/// the error of the first failing check, and adds to `warnings` the flags
/// of the height and frequency bands reached before the return.
pub fn validate_inputs(
    ranges: &InputRanges,
    climate: i32,
    pol: i32,
    mdvar: i32,
    warnings: &mut i32,
) -> (rc: i32)
    ensures
        rc == input_error(*ranges, climate, pol, mdvar),
        *final(warnings) == *old(warnings) | input_warnings(*ranges, climate),
        rc == SUCCESS <==> inputs_valid(*ranges, climate, pol, mdvar),
{
    let tx = band_warning(ranges.tx_height, WARN_TX_TERMINAL_HEIGHT);
    if let Band::OutOfRange = ranges.tx_height {
        raise(warnings, tx);
        return ERROR_TX_TERMINAL_HEIGHT;
    }
    let rx = band_warning(ranges.rx_height, WARN_RX_TERMINAL_HEIGHT);
    if let Band::OutOfRange = ranges.rx_height {
        raise(warnings, tx | rx);
        return ERROR_RX_TERMINAL_HEIGHT;
    }
    if climate != 1 && climate != 2 && climate != 3 && climate != 4 && climate != 5 && climate
        != 6 && climate != 7 {
        raise(warnings, tx | rx);
        return ERROR_INVALID_RADIO_CLIMATE;
    }
    if !ranges.refractivity_valid {
        raise(warnings, tx | rx);
        return ERROR_REFRACTIVITY;
    }
    let f = band_warning(ranges.frequency, WARN_FREQUENCY);
    raise(warnings, tx | rx | f);
    if let Band::OutOfRange = ranges.frequency {
        return ERROR_FREQUENCY;
    }
    if pol != POLARIZATION_HORIZONTAL && pol != POLARIZATION_VERTICAL {
        return ERROR_POLARIZATION;
    }
    if !ranges.epsilon_valid {
        return ERROR_EPSILON;
    }
    if !ranges.sigma_valid {
        return ERROR_SIGMA;
    }
    if (mdvar < 0) || (mdvar > 3 && mdvar < 10) || (mdvar > 13 && mdvar < 20) || (mdvar > 23
        && mdvar < 30) || (mdvar > 33) {
        return ERROR_MDVAR;
    }
    if !ranges.situation_valid {
        return ERROR_INVALID_SITUATION;
    }
    if !ranges.time_valid {
        return ERROR_INVALID_TIME;
    }
    if !ranges.location_valid {
        return ERROR_INVALID_LOCATION;
    }
    SUCCESS
}

/// Whether a siting criteria code is one of the three accepted.
fn siting_criteria_accepted(criteria: i32) -> (ok: bool)
    ensures
        ok == is_valid_siting_criteria(criteria),
{
    criteria == SITING_CRITERIA_RANDOM || criteria == SITING_CRITERIA_CAREFUL || criteria
        == SITING_CRITERIA_VERY_CAREFUL
}

/// Checks the inputs of an area-mode prediction: those common to all
/// modes, then the path distance, the terrain irregularity parameter and
/// the two siting criteria.
pub fn validate_area_inputs(
    ranges: &InputRanges,
    area: &AreaRanges,
    climate: i32,
    pol: i32,
    mdvar: i32,
    tx_site_criteria: i32,
    rx_site_criteria: i32,
    warnings: &mut i32,
) -> (rc: i32)
    ensures
        rc == area_input_error(
            *ranges,
            *area,
            climate,
            pol,
            mdvar,
            tx_site_criteria,
            rx_site_criteria,
        ),
        *final(warnings) == *old(warnings) | input_warnings(*ranges, climate),
        rc == ERROR_PATH_DISTANCE <==> inputs_valid(*ranges, climate, pol, mdvar)
            && !area.distance_valid,
        rc == ERROR_DELTA_H <==> inputs_valid(*ranges, climate, pol, mdvar)
            && area.distance_valid && !area.delta_h_valid,
        rc == ERROR_TX_SITING_CRITERIA <==> inputs_valid(*ranges, climate, pol, mdvar)
            && area.distance_valid && area.delta_h_valid && !is_valid_siting_criteria(
            tx_site_criteria,
        ),
        rc == ERROR_RX_SITING_CRITERIA <==> inputs_valid(*ranges, climate, pol, mdvar)
            && area.distance_valid && area.delta_h_valid && is_valid_siting_criteria(
            tx_site_criteria,
        ) && !is_valid_siting_criteria(rx_site_criteria),
{
    proof {
        lemma_area_validation_reports_first_failure(
            *ranges,
            *area,
            climate,
            pol,
            mdvar,
            tx_site_criteria,
            rx_site_criteria,
        );
    }
    let rtn = validate_inputs(ranges, climate, pol, mdvar, warnings);
    if rtn != SUCCESS {
        return rtn;
    }
    if !area.distance_valid {
        return ERROR_PATH_DISTANCE;
    }
    if !area.delta_h_valid {
        return ERROR_DELTA_H;
    }
    if !siting_criteria_accepted(tx_site_criteria) {
        return ERROR_TX_SITING_CRITERIA;
    }
    if !siting_criteria_accepted(rx_site_criteria) {
        return ERROR_RX_SITING_CRITERIA;
    }
    SUCCESS
}

/// The result that a confidence/reliability prediction returns for the
/// result of the underlying time/location/situation prediction: an invalid
/// time is reported as an invalid reliability, an invalid situation as an
/// invalid confidence, anything else as it is.
pub fn cr_result<T>(result: Result<T, i32>) -> (r: Result<T, i32>)
    ensures
        match result {
            Ok(v) => r == Ok::<T, i32>(v),
            Err(code) => r == Err::<T, i32>(cr_code(code)),
        },
        match result {
            Ok(v) => r == Ok::<T, i32>(v),
            Err(code) => {
                &&& code == ERROR_INVALID_TIME ==> r == Err::<T, i32>(ERROR_INVALID_RELIABILITY)
                &&& code == ERROR_INVALID_SITUATION ==> r == Err::<T, i32>(
                    ERROR_INVALID_CONFIDENCE,
                )
                &&& code != ERROR_INVALID_TIME && code != ERROR_INVALID_SITUATION ==> r == Err::<
                    T,
                    i32,
                >(code)
            },
        },
{
    match result {
        Err(code) => {
            if code == ERROR_INVALID_TIME {
                Err(ERROR_INVALID_RELIABILITY)
            } else if code == ERROR_INVALID_SITUATION {
                Err(ERROR_INVALID_CONFIDENCE)
            } else {
                Err(code)
            }
        },
        Ok(v) => Ok(v),
    }
}

/// Input validation succeeds exactly when every input is accepted,
/// whatever the order in which the checks are made.
pub proof fn lemma_validation_succeeds_iff_valid(r: InputRanges, climate: i32, pol: i32, mdvar: i32)
    ensures
        (input_error(r, climate, pol, mdvar) == SUCCESS) <==> inputs_valid(r, climate, pol, mdvar),
{
}

/// The error that input validation reports names a check that fails.
pub proof fn lemma_validation_error_names_failing_check(
    r: InputRanges,
    climate: i32,
    pol: i32,
    mdvar: i32,
)
    ensures
        ({
            let e = input_error(r, climate, pol, mdvar);
            &&& e == ERROR_TX_TERMINAL_HEIGHT ==> r.tx_height is OutOfRange
            &&& e == ERROR_RX_TERMINAL_HEIGHT ==> r.rx_height is OutOfRange
            &&& e == ERROR_INVALID_RADIO_CLIMATE ==> !is_valid_climate(climate)
            &&& e == ERROR_REFRACTIVITY ==> !r.refractivity_valid
            &&& e == ERROR_FREQUENCY ==> r.frequency is OutOfRange
            &&& e == ERROR_POLARIZATION ==> !is_valid_polarization(pol)
            &&& e == ERROR_EPSILON ==> !r.epsilon_valid
            &&& e == ERROR_SIGMA ==> !r.sigma_valid
            &&& e == ERROR_MDVAR ==> !is_valid_mdvar(mdvar)
            &&& e == ERROR_INVALID_SITUATION ==> !r.situation_valid
            &&& e == ERROR_INVALID_TIME ==> !r.time_valid
            &&& e == ERROR_INVALID_LOCATION ==> !r.location_valid
        }),
{
}

/// Validation adds warnings and never clears one that was already set.
pub proof fn lemma_validation_keeps_warnings(before: i32, r: InputRanges, climate: i32)
    ensures
        (before | input_warnings(r, climate)) & before == before,
{
    let w = input_warnings(r, climate);
    assert((before | w) & before == before) by (bit_vector);
}

/// When validation succeeds, it raises a warning exactly when a height or
/// the frequency lies outside its nominal range, each with its own flag.
pub proof fn lemma_accepted_inputs_warnings(r: InputRanges, climate: i32, pol: i32, mdvar: i32)
    requires
        input_error(r, climate, pol, mdvar) == SUCCESS,
    ensures
        input_warnings(r, climate) & WARN_TX_TERMINAL_HEIGHT != 0 <==> r.tx_height is Caution,
        input_warnings(r, climate) & WARN_RX_TERMINAL_HEIGHT != 0 <==> r.rx_height is Caution,
        input_warnings(r, climate) & WARN_FREQUENCY != 0 <==> r.frequency is Caution,
        input_warnings(r, climate) & !(WARN_TX_TERMINAL_HEIGHT | WARN_RX_TERMINAL_HEIGHT
            | WARN_FREQUENCY) == 0,
{
    let tx = band_flag(r.tx_height, WARN_TX_TERMINAL_HEIGHT);
    let rx = band_flag(r.rx_height, WARN_RX_TERMINAL_HEIGHT);
    let f = band_flag(r.frequency, WARN_FREQUENCY);
    assert(input_warnings(r, climate) == tx | rx | f);
    assert((tx == 0 || tx == 1) && (rx == 0 || rx == 2) && (f == 0 || f == 4));
    assert((tx == 0 || tx == 1) && (rx == 0 || rx == 2) && (f == 0 || f == 4) ==> {
        &&& ((tx | rx | f) & 1 != 0 <==> tx == 1)
        &&& ((tx | rx | f) & 2 != 0 <==> rx == 2)
        &&& ((tx | rx | f) & 4 != 0 <==> f == 4)
        &&& (tx | rx | f) & !(1i32 | 2i32 | 4i32) == 0
    }) by (bit_vector);
}

/// Area-mode validation succeeds exactly when every input is accepted.
pub proof fn lemma_area_validation_succeeds_iff_valid(
    r: InputRanges,
    a: AreaRanges,
    climate: i32,
    pol: i32,
    mdvar: i32,
    tx_site: i32,
    rx_site: i32,
)
    ensures
        (area_input_error(r, a, climate, pol, mdvar, tx_site, rx_site) == SUCCESS) <==> {
            &&& inputs_valid(r, climate, pol, mdvar)
            &&& a.distance_valid
            &&& a.delta_h_valid
            &&& is_valid_siting_criteria(tx_site)
            &&& is_valid_siting_criteria(rx_site)
        },
{
}

/// A confidence/reliability prediction reports an invalid reliability
/// exactly where the underlying prediction found an invalid time, an
/// invalid confidence exactly where it found an invalid situation, and
/// never an invalid time, situation or, since its location percentage is
/// the valid median, location.
pub proof fn lemma_cr_error_codes(r: InputRanges, climate: i32, pol: i32, mdvar: i32)
    requires
        r.location_valid,
    ensures
        ({
            let e = input_error(r, climate, pol, mdvar);
            &&& cr_code(e) == ERROR_INVALID_RELIABILITY <==> e == ERROR_INVALID_TIME
            &&& cr_code(e) == ERROR_INVALID_CONFIDENCE <==> e == ERROR_INVALID_SITUATION
            &&& cr_code(e) != ERROR_INVALID_TIME
            &&& cr_code(e) != ERROR_INVALID_SITUATION
            &&& cr_code(e) != ERROR_INVALID_LOCATION
            &&& (cr_code(e) == SUCCESS <==> e == SUCCESS)
        }),
{
}

/// Mapping a code for a confidence/reliability prediction twice changes
/// nothing more than mapping it once.
pub proof fn lemma_cr_code_idempotent(code: i32)
    ensures
        cr_code(cr_code(code)) == cr_code(code),
{
}

/// Input validation reports the first failing check: each error code comes
/// back exactly when its own check fails and every check before it in the
/// order transmitter height, receiver height, climate, refractivity,
/// frequency, polarization, permittivity, conductivity, mode of
/// variability, situation, time, location passes; and no other code comes
/// back.
pub proof fn lemma_validation_reports_first_failure(
    r: InputRanges,
    climate: i32,
    pol: i32,
    mdvar: i32,
)
    ensures
        ({
            let e = input_error(r, climate, pol, mdvar);
            let c1 = !(r.tx_height is OutOfRange);
            let c2 = !(r.rx_height is OutOfRange);
            let c3 = 1 <= climate <= 7;
            let c4 = r.refractivity_valid;
            let c5 = !(r.frequency is OutOfRange);
            let c6 = pol == 0 || pol == 1;
            let c7 = r.epsilon_valid;
            let c8 = r.sigma_valid;
            let c9 = (0 <= mdvar <= 3) || (10 <= mdvar <= 13) || (20 <= mdvar <= 23) || (30
                <= mdvar <= 33);
            let c10 = r.situation_valid;
            let c11 = r.time_valid;
            let c12 = r.location_valid;
            &&& (e == ERROR_TX_TERMINAL_HEIGHT <==> !c1)
            &&& (e == ERROR_RX_TERMINAL_HEIGHT <==> c1 && !c2)
            &&& (e == ERROR_INVALID_RADIO_CLIMATE <==> c1 && c2 && !c3)
            &&& (e == ERROR_REFRACTIVITY <==> c1 && c2 && c3 && !c4)
            &&& (e == ERROR_FREQUENCY <==> c1 && c2 && c3 && c4 && !c5)
            &&& (e == ERROR_POLARIZATION <==> c1 && c2 && c3 && c4 && c5 && !c6)
            &&& (e == ERROR_EPSILON <==> c1 && c2 && c3 && c4 && c5 && c6 && !c7)
            &&& (e == ERROR_SIGMA <==> c1 && c2 && c3 && c4 && c5 && c6 && c7 && !c8)
            &&& (e == ERROR_MDVAR <==> c1 && c2 && c3 && c4 && c5 && c6 && c7 && c8 && !c9)
            &&& (e == ERROR_INVALID_SITUATION <==> c1 && c2 && c3 && c4 && c5 && c6 && c7 && c8
                && c9 && !c10)
            &&& (e == ERROR_INVALID_TIME <==> c1 && c2 && c3 && c4 && c5 && c6 && c7 && c8 && c9
                && c10 && !c11)
            &&& (e == ERROR_INVALID_LOCATION <==> c1 && c2 && c3 && c4 && c5 && c6 && c7 && c8
                && c9 && c10 && c11 && !c12)
            &&& (e == SUCCESS <==> c1 && c2 && c3 && c4 && c5 && c6 && c7 && c8 && c9 && c10
                && c11 && c12)
        }),
{
}

/// Area-mode validation reports the first failing check: an error of the
/// common inputs as it is; otherwise an invalid path distance exactly when
/// the distance is invalid, an invalid terrain irregularity exactly when
/// the distance is valid and the irregularity is not, a siting error
/// exactly for an invalid siting code (transmitter first); and success
/// exactly when every input is valid.
pub proof fn lemma_area_validation_reports_first_failure(
    r: InputRanges,
    a: AreaRanges,
    climate: i32,
    pol: i32,
    mdvar: i32,
    tx_site: i32,
    rx_site: i32,
)
    ensures
        ({
            let e = area_input_error(r, a, climate, pol, mdvar, tx_site, rx_site);
            let common = input_error(r, climate, pol, mdvar);
            let ok = inputs_valid(r, climate, pol, mdvar);
            let tx_ok = tx_site == 0 || tx_site == 1 || tx_site == 2;
            let rx_ok = rx_site == 0 || rx_site == 1 || rx_site == 2;
            &&& (!ok ==> e == common)
            &&& (e == ERROR_PATH_DISTANCE <==> ok && !a.distance_valid)
            &&& (e == ERROR_DELTA_H <==> ok && a.distance_valid && !a.delta_h_valid)
            &&& (e == ERROR_TX_SITING_CRITERIA <==> ok && a.distance_valid && a.delta_h_valid
                && !tx_ok)
            &&& (e == ERROR_RX_SITING_CRITERIA <==> ok && a.distance_valid && a.delta_h_valid
                && tx_ok && !rx_ok)
            &&& (e == SUCCESS <==> ok && a.distance_valid && a.delta_h_valid && tx_ok && rx_ok)
        }),
{
    lemma_validation_reports_first_failure(r, climate, pol, mdvar);
}

/// Renaming for a confidence/reliability prediction changes only an
/// invalid time, into an invalid reliability, and an invalid situation,
/// into an invalid confidence; every other code stays as it is.
pub proof fn lemma_cr_code_changes_only_time_and_situation(code: i32)
    ensures
        code == ERROR_INVALID_TIME ==> cr_code(code) == ERROR_INVALID_RELIABILITY,
        code == ERROR_INVALID_SITUATION ==> cr_code(code) == ERROR_INVALID_CONFIDENCE,
        code != ERROR_INVALID_TIME && code != ERROR_INVALID_SITUATION ==> cr_code(code) == code,
{
}

/// Validation raises the transmitter-height warning exactly when that
/// height is outside its nominal range; the receiver-height warning exactly
/// when its height is outside its nominal range and the transmitter height
/// was valid; the frequency warning exactly when the frequency is outside
/// its nominal range and the heights, climate and refractivity were valid;
/// and no other warning.
pub proof fn lemma_validation_warning_flags(r: InputRanges, climate: i32)
    ensures
        ({
            let w = input_warnings(r, climate);
            let reach_rx = !(r.tx_height is OutOfRange);
            let reach_f = reach_rx && !(r.rx_height is OutOfRange) && 1 <= climate <= 7
                && r.refractivity_valid;
            &&& (w & WARN_TX_TERMINAL_HEIGHT != 0 <==> !(r.tx_height is Nominal))
            &&& (w & WARN_RX_TERMINAL_HEIGHT != 0 <==> reach_rx && !(r.rx_height is Nominal))
            &&& (w & WARN_FREQUENCY != 0 <==> reach_f && !(r.frequency is Nominal))
            &&& w & !(WARN_TX_TERMINAL_HEIGHT | WARN_RX_TERMINAL_HEIGHT | WARN_FREQUENCY) == 0
        }),
{
    let tx = band_flag(r.tx_height, WARN_TX_TERMINAL_HEIGHT);
    let rx = band_flag(r.rx_height, WARN_RX_TERMINAL_HEIGHT);
    let f = band_flag(r.frequency, WARN_FREQUENCY);
    assert((tx == 0 || tx == 1) && (rx == 0 || rx == 2) && (f == 0 || f == 4) ==> {
        &&& ((tx | rx | f) & 1 != 0 <==> tx == 1)
        &&& ((tx | rx | f) & 2 != 0 <==> rx == 2)
        &&& ((tx | rx | f) & 4 != 0 <==> f == 4)
        &&& (tx | rx | f) & !(1i32 | 2i32 | 4i32) == 0
        &&& ((tx | rx) & 1 != 0 <==> tx == 1)
        &&& ((tx | rx) & 2 != 0 <==> rx == 2)
        &&& (tx | rx) & 4 == 0
        &&& (tx | rx) & !(1i32 | 2i32 | 4i32) == 0
        &&& (tx & 1 != 0 <==> tx == 1)
        &&& tx & 2 == 0
        &&& tx & 4 == 0
        &&& tx & !(1i32 | 2i32 | 4i32) == 0
    }) by (bit_vector);
}

} // verus!
