//! Decoding of the mode-of-variability code: the base mode, and whether
//! location and situation variability are kept; and which standard normal
//! deviate each variability component uses in each mode.
use vstd::prelude::*;
use crate::codes::{
    is_valid_mdvar, MDVAR_ACCIDENTAL, MDVAR_BROADCAST, MDVAR_ELIMINATE_LOCATION,
    MDVAR_ELIMINATE_SITUATION, MDVAR_MOBILE, MDVAR_SINGLE_MESSAGE,
};

verus! {

/// The base mode of variability.
#[derive(Clone, Copy, Debug, PartialEq, Eq, Structural)]
pub enum VariabilityMode {
    /// Confidence is the only variability: time, location and situation
    /// deviates are all the situation deviate.
    SingleMessage,
    /// Reliability is time variability; location takes the situation deviate.
    Accidental,
    /// Reliability is time and location variability together.
    Mobile,
    /// Time and location variability are independent.
    Broadcast,
}

/// A decoded mode-of-variability code.
#[derive(Clone, Copy, Debug)]
pub struct VariabilityOptions {
    pub mode: VariabilityMode,
    /// False when the code carries the "+10" that eliminates location
    /// variability.
    pub location_variability: bool,
    /// False when the code carries the "+20" that eliminates situation
    /// variability.
    pub situation_variability: bool,
}

/// The standard normal deviate that a variability component takes.
#[derive(Clone, Copy, Debug, PartialEq, Eq, Structural)]
pub enum Deviate {
    Time,
    Location,
    Situation,
}

/// The code without its "+20" part.
pub open spec fn without_situation_part(mdvar: int) -> int {
    if mdvar >= 20 {
        mdvar - 20
    } else {
        mdvar
    }
}

/// The code without its "+20" and "+10" parts.
pub open spec fn base_code(mdvar: int) -> int {
    let m = without_situation_part(mdvar);
    if m >= 10 {
        m - 10
    } else {
        m
    }
}

/// The mode that a base code selects: 0, 1 and 2 their own modes, any
/// other code the broadcast mode.
pub open spec fn mode_of_base_code(code: int) -> VariabilityMode {
    if code == MDVAR_SINGLE_MESSAGE {
        VariabilityMode::SingleMessage
    } else if code == MDVAR_ACCIDENTAL {
        VariabilityMode::Accidental
    } else if code == MDVAR_MOBILE {
        VariabilityMode::Mobile
    } else {
        VariabilityMode::Broadcast
    }
}

/// The decoding of a mode-of-variability code: situation variability is
/// eliminated from 20 on; then location variability from 10 on.
pub open spec fn decoded_mdvar(mdvar: i32) -> VariabilityOptions {
    VariabilityOptions {
        mode: mode_of_base_code(base_code(mdvar as int)),
        location_variability: !(without_situation_part(mdvar as int) >= 10),
        situation_variability: !(mdvar >= 20),
    }
}

/// The code of a base mode.
pub open spec fn mode_code(mode: VariabilityMode) -> int {
    match mode {
        VariabilityMode::SingleMessage => MDVAR_SINGLE_MESSAGE as int,
        VariabilityMode::Accidental => MDVAR_ACCIDENTAL as int,
        VariabilityMode::Mobile => MDVAR_MOBILE as int,
        VariabilityMode::Broadcast => MDVAR_BROADCAST as int,
    }
}

/// The code that denotes a set of options.
pub open spec fn encoded_mdvar(o: VariabilityOptions) -> int {
    mode_code(o.mode) + (if o.location_variability {
        0
    } else {
        MDVAR_ELIMINATE_LOCATION as int
    }) + (if o.situation_variability {
        0
    } else {
        MDVAR_ELIMINATE_SITUATION as int
    })
}

/// The deviate that time variability takes in a mode.
pub open spec fn time_deviate(mode: VariabilityMode) -> Deviate {
    match mode {
        VariabilityMode::SingleMessage => Deviate::Situation,
        _ => Deviate::Time,
    }
}

/// The deviate that location variability takes in a mode.
pub open spec fn location_deviate(mode: VariabilityMode) -> Deviate {
    match mode {
        VariabilityMode::SingleMessage => Deviate::Situation,
        VariabilityMode::Accidental => Deviate::Situation,
        VariabilityMode::Mobile => Deviate::Time,
        VariabilityMode::Broadcast => Deviate::Location,
    }
}

/// Decodes a mode-of-variability code, for any code: a part of 20 or more
/// eliminates situation variability, then a remaining part of 10 or more
/// location variability, and the rest selects the mode.
pub fn decode_mdvar(mdvar: i32) -> (o: VariabilityOptions)
    ensures
        o == decoded_mdvar(mdvar),
        o.situation_variability <==> mdvar < 20,
        o.location_variability <==> (mdvar < 10 || (20 <= mdvar < 30)),
{
    let mut m = mdvar;
    let plus20 = m >= 20;
    if plus20 {
        m = m - 20;
    }
    let plus10 = m >= 10;
    if plus10 {
        m = m - 10;
    }
    let mode = if m == MDVAR_SINGLE_MESSAGE {
        VariabilityMode::SingleMessage
    } else if m == MDVAR_ACCIDENTAL {
        VariabilityMode::Accidental
    } else if m == MDVAR_MOBILE {
        VariabilityMode::Mobile
    } else {
        VariabilityMode::Broadcast
    };
    VariabilityOptions { mode, location_variability: !plus10, situation_variability: !plus20 }
}

/// The deviates that time and location variability take in a mode, in
/// this order.
pub fn deviate_sources(mode: VariabilityMode) -> (d: (Deviate, Deviate))
    ensures
        d.0 == time_deviate(mode),
        d.1 == location_deviate(mode),
        (d.0 == Deviate::Situation) <==> mode is SingleMessage,
        (d.0 == Deviate::Time) <==> !(mode is SingleMessage),
        (d.1 == Deviate::Situation) <==> (mode is SingleMessage || mode is Accidental),
        (d.1 == Deviate::Time) <==> mode is Mobile,
        (d.1 == Deviate::Location) <==> mode is Broadcast,
{
    match mode {
        VariabilityMode::SingleMessage => (Deviate::Situation, Deviate::Situation),
        VariabilityMode::Accidental => (Deviate::Time, Deviate::Situation),
        VariabilityMode::Mobile => (Deviate::Time, Deviate::Time),
        VariabilityMode::Broadcast => (Deviate::Time, Deviate::Location),
    }
}

/// Decoding an accepted code and encoding the options gives the code back.
pub proof fn lemma_decode_mdvar_roundtrip(mdvar: i32)
    requires
        is_valid_mdvar(mdvar),
    ensures
        encoded_mdvar(decoded_mdvar(mdvar)) == mdvar,
{
}

/// Every set of options has an accepted code, which decodes to it: the
/// accepted codes are exactly the encodings of the options.
pub proof fn lemma_encode_mdvar_roundtrip(o: VariabilityOptions)
    ensures
        is_valid_mdvar(encoded_mdvar(o) as i32),
        decoded_mdvar(encoded_mdvar(o) as i32) == o,
{
}

/// The time variability takes its own deviate in every mode but single
/// message, never the location deviate; the location variability takes its
/// own deviate only in the broadcast mode.
pub proof fn lemma_deviates(mode: VariabilityMode)
    ensures
        (time_deviate(mode) == Deviate::Time) <==> !(mode is SingleMessage),
        (location_deviate(mode) == Deviate::Location) <==> mode is Broadcast,
        time_deviate(mode) != Deviate::Location,
{
}

/// For any code: situation variability is kept exactly below 20; location
/// variability exactly below 10 or from 20 to below 30; and what remains
/// of the code once the 20 and 10 that these drop are taken away selects
/// single message at 0, accidental at 1, mobile at 2, and broadcast for
/// any other value.
pub proof fn lemma_decode_mdvar_any_code(mdvar: i32)
    ensures
        ({
            let o = decoded_mdvar(mdvar);
            let rest = mdvar - (if o.situation_variability {
                0int
            } else {
                20
            }) - (if o.location_variability {
                0int
            } else {
                10
            });
            &&& o.situation_variability <==> mdvar < 20
            &&& o.location_variability <==> (mdvar < 10 || (20 <= mdvar < 30))
            &&& (o.mode is SingleMessage <==> rest == 0)
            &&& (o.mode is Accidental <==> rest == 1)
            &&& (o.mode is Mobile <==> rest == 2)
            &&& (o.mode is Broadcast <==> rest != 0 && rest != 1 && rest != 2)
        }),
{
}

/// The time variability takes the situation deviate in the single-message
/// mode and its own deviate otherwise; the location variability takes the
/// situation deviate in the single-message and accidental modes, the time
/// deviate in the mobile mode and its own deviate in the broadcast mode.
pub proof fn lemma_deviate_table(mode: VariabilityMode)
    ensures
        (time_deviate(mode) == Deviate::Situation) <==> mode is SingleMessage,
        (time_deviate(mode) == Deviate::Time) <==> !(mode is SingleMessage),
        (location_deviate(mode) == Deviate::Situation) <==> (mode is SingleMessage
            || mode is Accidental),
        (location_deviate(mode) == Deviate::Time) <==> mode is Mobile,
        (location_deviate(mode) == Deviate::Location) <==> mode is Broadcast,
{
}

} // verus!
