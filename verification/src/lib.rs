//! Status codes, input validation and the integer decision logic of the
//! Irregular Terrain Model (Longley-Rice) radio propagation model.
//!
//! The numeric kernel of the model works on floating-point values; the
//! library verifies the decisions that the kernel delegates to it: which
//! inputs are accepted, which error is reported first, which warnings are
//! raised, how the mode of variability is decoded, which propagation mode a
//! path falls into, and which terrain-profile indices a computation reads.
pub mod codes;
pub mod validation;
pub mod variability;
pub mod path;
pub mod profile;
pub mod area;
