use rustitm::codes::{
    ERROR_DELTA_H, ERROR_EPSILON, ERROR_FREQUENCY, ERROR_INVALID_CONFIDENCE,
    ERROR_INVALID_LOCATION, ERROR_INVALID_RADIO_CLIMATE, ERROR_INVALID_RELIABILITY,
    ERROR_INVALID_SITUATION, ERROR_INVALID_TIME, ERROR_MDVAR, ERROR_PATH_DISTANCE,
    ERROR_POLARIZATION, ERROR_REFRACTIVITY, ERROR_RX_SITING_CRITERIA, ERROR_RX_TERMINAL_HEIGHT,
    ERROR_SIGMA, ERROR_TX_SITING_CRITERIA, ERROR_TX_TERMINAL_HEIGHT, NO_WARNINGS, SUCCESS,
    WARN_FREQUENCY, WARN_RX_TERMINAL_HEIGHT, WARN_TX_TERMINAL_HEIGHT,
};
use rustitm::validation::{
    cr_result, validate_area_inputs, validate_inputs, AreaRanges, Band, InputRanges,
};

fn nominal() -> InputRanges {
    InputRanges {
        tx_height: Band::Nominal,
        rx_height: Band::Nominal,
        frequency: Band::Nominal,
        refractivity_valid: true,
        epsilon_valid: true,
        sigma_valid: true,
        time_valid: true,
        location_valid: true,
        situation_valid: true,
    }
}

fn run(r: &InputRanges, climate: i32, pol: i32, mdvar: i32) -> (i32, i32) {
    let mut w = NO_WARNINGS;
    let rc = validate_inputs(r, climate, pol, mdvar, &mut w);
    (rc, w)
}

#[test]
fn accepts_nominal_inputs_without_warnings() {
    assert_eq!(run(&nominal(), 5, 1, 1), (SUCCESS, NO_WARNINGS));
}

#[test]
fn accepts_every_climate_polarization_and_mdvar() {
    for climate in 1..=7 {
        for pol in 0..=1 {
            for mdvar in [0, 1, 2, 3, 10, 11, 12, 13, 20, 21, 22, 23, 30, 31, 32, 33] {
                assert_eq!(run(&nominal(), climate, pol, mdvar).0, SUCCESS);
            }
        }
    }
}

#[test]
fn rejects_each_invalid_input_with_its_code() {
    let mut r = nominal();
    r.tx_height = Band::OutOfRange;
    assert_eq!(run(&r, 5, 1, 1).0, ERROR_TX_TERMINAL_HEIGHT);

    let mut r = nominal();
    r.rx_height = Band::OutOfRange;
    assert_eq!(run(&r, 5, 1, 1).0, ERROR_RX_TERMINAL_HEIGHT);

    assert_eq!(run(&nominal(), 0, 1, 1).0, ERROR_INVALID_RADIO_CLIMATE);
    assert_eq!(run(&nominal(), 8, 1, 1).0, ERROR_INVALID_RADIO_CLIMATE);

    let mut r = nominal();
    r.refractivity_valid = false;
    assert_eq!(run(&r, 5, 1, 1).0, ERROR_REFRACTIVITY);

    let mut r = nominal();
    r.frequency = Band::OutOfRange;
    assert_eq!(run(&r, 5, 1, 1).0, ERROR_FREQUENCY);

    assert_eq!(run(&nominal(), 5, 2, 1).0, ERROR_POLARIZATION);
    assert_eq!(run(&nominal(), 5, -1, 1).0, ERROR_POLARIZATION);

    let mut r = nominal();
    r.epsilon_valid = false;
    assert_eq!(run(&r, 5, 1, 1).0, ERROR_EPSILON);

    let mut r = nominal();
    r.sigma_valid = false;
    assert_eq!(run(&r, 5, 1, 1).0, ERROR_SIGMA);

    for mdvar in [-1, 4, 9, 14, 19, 24, 29, 34, 100] {
        assert_eq!(run(&nominal(), 5, 1, mdvar).0, ERROR_MDVAR);
    }

    let mut r = nominal();
    r.situation_valid = false;
    assert_eq!(run(&r, 5, 1, 1).0, ERROR_INVALID_SITUATION);

    let mut r = nominal();
    r.time_valid = false;
    assert_eq!(run(&r, 5, 1, 1).0, ERROR_INVALID_TIME);

    let mut r = nominal();
    r.location_valid = false;
    assert_eq!(run(&r, 5, 1, 1).0, ERROR_INVALID_LOCATION);
}

#[test]
fn reports_the_first_failing_check() {
    let mut r = nominal();
    r.rx_height = Band::OutOfRange;
    r.time_valid = false;
    assert_eq!(run(&r, 0, 7, 99).0, ERROR_RX_TERMINAL_HEIGHT);

    let mut r = nominal();
    r.situation_valid = false;
    r.time_valid = false;
    r.location_valid = false;
    assert_eq!(run(&r, 5, 1, 1).0, ERROR_INVALID_SITUATION);

    let mut r = nominal();
    r.sigma_valid = false;
    assert_eq!(run(&r, 5, 1, 5).0, ERROR_SIGMA);
}

#[test]
fn raises_caution_warnings_with_their_flags() {
    let mut r = nominal();
    r.tx_height = Band::Caution;
    assert_eq!(run(&r, 5, 1, 1), (SUCCESS, WARN_TX_TERMINAL_HEIGHT));

    let mut r = nominal();
    r.rx_height = Band::Caution;
    r.frequency = Band::Caution;
    assert_eq!(run(&r, 5, 1, 1), (SUCCESS, WARN_RX_TERMINAL_HEIGHT | WARN_FREQUENCY));
}

#[test]
fn warnings_reached_before_an_error_are_kept() {
    let mut r = nominal();
    r.tx_height = Band::Caution;
    r.rx_height = Band::OutOfRange;
    r.frequency = Band::Caution;
    assert_eq!(
        run(&r, 5, 1, 1),
        (ERROR_RX_TERMINAL_HEIGHT, WARN_TX_TERMINAL_HEIGHT | WARN_RX_TERMINAL_HEIGHT)
    );

    let mut r = nominal();
    r.frequency = Band::OutOfRange;
    assert_eq!(run(&r, 5, 1, 1), (ERROR_FREQUENCY, WARN_FREQUENCY));
}

#[test]
fn validation_never_clears_earlier_warnings() {
    let mut w = 0x4000;
    let rc = validate_inputs(&nominal(), 5, 1, 1, &mut w);
    assert_eq!(rc, SUCCESS);
    assert_eq!(w, 0x4000);
}

fn area(r: &InputRanges, a: AreaRanges, tx: i32, rx: i32) -> i32 {
    let mut w = NO_WARNINGS;
    validate_area_inputs(r, &a, 5, 1, 1, tx, rx, &mut w)
}

#[test]
fn area_validation_checks_distance_delta_h_and_siting() {
    let ok = AreaRanges { distance_valid: true, delta_h_valid: true };
    assert_eq!(area(&nominal(), ok, 0, 2), SUCCESS);
    assert_eq!(
        area(&nominal(), AreaRanges { distance_valid: false, delta_h_valid: false }, 0, 0),
        ERROR_PATH_DISTANCE
    );
    assert_eq!(
        area(&nominal(), AreaRanges { distance_valid: true, delta_h_valid: false }, 0, 0),
        ERROR_DELTA_H
    );
    assert_eq!(area(&nominal(), ok, 3, 0), ERROR_TX_SITING_CRITERIA);
    assert_eq!(area(&nominal(), ok, 1, -1), ERROR_RX_SITING_CRITERIA);

    let mut r = nominal();
    r.epsilon_valid = false;
    assert_eq!(area(&r, AreaRanges { distance_valid: false, delta_h_valid: true }, 7, 7), ERROR_EPSILON);
}

#[test]
fn cr_result_renames_time_and_situation_errors() {
    assert_eq!(cr_result::<u8>(Err(ERROR_INVALID_TIME)), Err(ERROR_INVALID_RELIABILITY));
    assert_eq!(cr_result::<u8>(Err(ERROR_INVALID_SITUATION)), Err(ERROR_INVALID_CONFIDENCE));
    assert_eq!(cr_result::<u8>(Err(ERROR_SIGMA)), Err(ERROR_SIGMA));
    assert_eq!(cr_result::<u8>(Err(ERROR_INVALID_LOCATION)), Err(ERROR_INVALID_LOCATION));
    assert_eq!(cr_result(Ok(7u8)), Ok(7u8));
    assert_eq!(
        cr_result(cr_result::<u8>(Err(ERROR_INVALID_TIME))),
        Err(ERROR_INVALID_RELIABILITY)
    );
}
