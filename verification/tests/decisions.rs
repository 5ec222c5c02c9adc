use rustitm::area::siting_gain;
use rustitm::codes::{
    climate_index, ERROR_EFFECTIVE_EARTH, ERROR_GROUND_IMPEDANCE,
    ERROR_SURFACE_REFRACTIVITY_LARGE, ERROR_SURFACE_REFRACTIVITY_SMALL, MODE_DIFFRACTION,
    MODE_LINE_OF_SIGHT, MODE_TROPOSCATTER, NO_WARNINGS, SUCCESS, WARN_PATH_DISTANCE_TOO_BIG_1,
    WARN_PATH_DISTANCE_TOO_BIG_2, WARN_PATH_DISTANCE_TOO_SMALL_1, WARN_PATH_DISTANCE_TOO_SMALL_2,
    WARN_RX_HORIZON_ANGLE, WARN_RX_HORIZON_DISTANCE_1, WARN_RX_HORIZON_DISTANCE_2,
    WARN_SURFACE_REFRACTIVITY, WARN_TX_HORIZON_ANGLE, WARN_TX_HORIZON_DISTANCE_1,
    WARN_TX_HORIZON_DISTANCE_2,
};
use rustitm::path::{
    check_path, propagation_mode, raise_distance_warnings, DistanceChecks, HorizonChecks,
    PathChecks, SurfaceRefractivity,
};
use rustitm::profile::{averaging_window, delta_h_sample_plan, widen_fit_window};
use rustitm::variability::{decode_mdvar, deviate_sources, Deviate, VariabilityMode};

fn quiet_horizons() -> HorizonChecks {
    HorizonChecks {
        tx_angle_steep: false,
        rx_angle_steep: false,
        tx_distance_short: false,
        rx_distance_short: false,
        tx_distance_long: false,
        rx_distance_long: false,
    }
}

fn good_path() -> PathChecks {
    PathChecks {
        horizons: quiet_horizons(),
        surface_refractivity: SurfaceRefractivity::Nominal,
        effective_earth_valid: true,
        ground_impedance_valid: true,
    }
}

fn path(c: &PathChecks) -> (i32, i32) {
    let mut w = NO_WARNINGS;
    let rc = check_path(c, &mut w);
    (rc, w)
}

#[test]
fn climate_index_maps_one_to_seven_onto_table_rows() {
    for climate in 1..=7 {
        assert_eq!(climate_index(climate), (climate - 1) as usize);
    }
}

#[test]
fn path_checks_report_each_error() {
    assert_eq!(path(&good_path()), (SUCCESS, NO_WARNINGS));

    let mut c = good_path();
    c.surface_refractivity = SurfaceRefractivity::TooSmall;
    c.effective_earth_valid = false;
    assert_eq!(path(&c).0, ERROR_SURFACE_REFRACTIVITY_SMALL);

    let mut c = good_path();
    c.surface_refractivity = SurfaceRefractivity::TooLarge;
    assert_eq!(path(&c).0, ERROR_SURFACE_REFRACTIVITY_LARGE);

    let mut c = good_path();
    c.effective_earth_valid = false;
    c.ground_impedance_valid = false;
    assert_eq!(path(&c).0, ERROR_EFFECTIVE_EARTH);

    let mut c = good_path();
    c.ground_impedance_valid = false;
    assert_eq!(path(&c).0, ERROR_GROUND_IMPEDANCE);
}

#[test]
fn path_checks_raise_each_warning_flag() {
    let mut c = good_path();
    c.surface_refractivity = SurfaceRefractivity::Low;
    assert_eq!(path(&c), (SUCCESS, WARN_SURFACE_REFRACTIVITY));

    let mut c = good_path();
    c.horizons = HorizonChecks {
        tx_angle_steep: true,
        rx_angle_steep: true,
        tx_distance_short: true,
        rx_distance_short: true,
        tx_distance_long: true,
        rx_distance_long: true,
    };
    c.surface_refractivity = SurfaceRefractivity::TooSmall;
    assert_eq!(
        path(&c),
        (
            ERROR_SURFACE_REFRACTIVITY_SMALL,
            WARN_TX_HORIZON_ANGLE
                | WARN_RX_HORIZON_ANGLE
                | WARN_TX_HORIZON_DISTANCE_1
                | WARN_RX_HORIZON_DISTANCE_1
                | WARN_TX_HORIZON_DISTANCE_2
                | WARN_RX_HORIZON_DISTANCE_2
        )
    );

    let mut c = good_path();
    c.horizons.rx_distance_long = true;
    let mut w = WARN_PATH_DISTANCE_TOO_BIG_1;
    assert_eq!(check_path(&c, &mut w), SUCCESS);
    assert_eq!(w, WARN_PATH_DISTANCE_TOO_BIG_1 | WARN_RX_HORIZON_DISTANCE_2);
}

#[test]
fn distance_warnings_raise_each_flag() {
    let mut w = NO_WARNINGS;
    raise_distance_warnings(
        &DistanceChecks {
            below_min_separation: true,
            below_1km: true,
            above_1000km: false,
            above_2000km: false,
        },
        &mut w,
    );
    assert_eq!(w, WARN_PATH_DISTANCE_TOO_SMALL_1 | WARN_PATH_DISTANCE_TOO_SMALL_2);

    let mut w = NO_WARNINGS;
    raise_distance_warnings(
        &DistanceChecks {
            below_min_separation: false,
            below_1km: false,
            above_1000km: true,
            above_2000km: true,
        },
        &mut w,
    );
    assert_eq!(w, WARN_PATH_DISTANCE_TOO_BIG_1 | WARN_PATH_DISTANCE_TOO_BIG_2);
}

#[test]
fn propagation_mode_follows_the_distance() {
    assert_eq!(propagation_mode(true, false), MODE_LINE_OF_SIGHT);
    assert_eq!(propagation_mode(true, true), MODE_LINE_OF_SIGHT);
    assert_eq!(propagation_mode(false, true), MODE_TROPOSCATTER);
    assert_eq!(propagation_mode(false, false), MODE_DIFFRACTION);
}

#[test]
fn decode_mdvar_splits_the_code() {
    let o = decode_mdvar(0);
    assert_eq!(o.mode, VariabilityMode::SingleMessage);
    assert!(o.location_variability && o.situation_variability);

    let o = decode_mdvar(11);
    assert_eq!(o.mode, VariabilityMode::Accidental);
    assert!(!o.location_variability && o.situation_variability);

    let o = decode_mdvar(22);
    assert_eq!(o.mode, VariabilityMode::Mobile);
    assert!(o.location_variability && !o.situation_variability);

    let o = decode_mdvar(33);
    assert_eq!(o.mode, VariabilityMode::Broadcast);
    assert!(!o.location_variability && !o.situation_variability);
}

#[test]
fn decode_mdvar_roundtrips_every_accepted_code() {
    for mdvar in [0, 1, 2, 3, 10, 11, 12, 13, 20, 21, 22, 23, 30, 31, 32, 33] {
        let o = decode_mdvar(mdvar);
        let mode = match o.mode {
            VariabilityMode::SingleMessage => 0,
            VariabilityMode::Accidental => 1,
            VariabilityMode::Mobile => 2,
            VariabilityMode::Broadcast => 3,
        };
        let code = mode
            + if o.location_variability { 0 } else { 10 }
            + if o.situation_variability { 0 } else { 20 };
        assert_eq!(code, mdvar);
    }
}

#[test]
fn deviate_sources_per_mode() {
    assert_eq!(
        deviate_sources(VariabilityMode::SingleMessage),
        (Deviate::Situation, Deviate::Situation)
    );
    assert_eq!(deviate_sources(VariabilityMode::Accidental), (Deviate::Time, Deviate::Situation));
    assert_eq!(deviate_sources(VariabilityMode::Mobile), (Deviate::Time, Deviate::Time));
    assert_eq!(deviate_sources(VariabilityMode::Broadcast), (Deviate::Time, Deviate::Location));
}

#[test]
fn averaging_window_trims_a_tenth_at_each_end() {
    assert_eq!(averaging_window(10), (1, 9));
    assert_eq!(averaging_window(156), (15, 141));
    assert_eq!(averaging_window(9), (0, 9));
    assert_eq!(averaging_window(0), (0, 0));
    assert_eq!(averaging_window(-25), (-2, -23));
}

#[test]
fn delta_h_sample_plan_clamps_the_decile_count() {
    assert_eq!(delta_h_sample_plan(10), (10, 95, 85));
    assert_eq!(delta_h_sample_plan(0), (4, 35, 31));
    assert_eq!(delta_h_sample_plan(-7), (4, 35, 31));
    assert_eq!(delta_h_sample_plan(1000), (25, 245, 220));
}

#[test]
fn widen_fit_window_grows_short_ranges_within_the_profile() {
    assert_eq!(widen_fit_window(2, 8, 10), (2, 8));
    assert_eq!(widen_fit_window(5, 5, 10), (4, 6));
    assert_eq!(widen_fit_window(0, 0, 10), (0, 1));
    assert_eq!(widen_fit_window(10, 10, 10), (9, 10));
    assert_eq!(widen_fit_window(1, 0, 10), (0, 1));
}

#[test]
fn siting_gain_per_criteria() {
    assert_eq!(siting_gain(0), None);
    assert_eq!(siting_gain(1), Some(4));
    assert_eq!(siting_gain(2), Some(9));
}
