//! Kinematic collision resolution for a 2D platformer.
//!
//! A moving shape asks to travel by some displacement during a simulation
//! tick.  The engine decides how far it may actually go before first touching
//! a static obstacle, and how its position and velocity are corrected so that
//! it slides along the obstacle instead of penetrating it or visibly stopping
//! at the moment of contact.
//!
//! All geometry is carried out in exact integer arithmetic: positions and
//! lengths are measured in *subunits*, durations in *time quanta*, and
//! velocities in subunits per quantum.  The caller chooses how fine these
//! units are.  Contact normals are integer vectors whose nominal length is
//! [`NORMAL_SCALE`](crate::vec2::NORMAL_SCALE) subunits.
//!
//! The swept-shape and ray queries that detect obstacles are not part of this
//! crate: they are a read-only oracle supplied by the caller as closures (see
//! [`correction`]).  Everything the engine computes from the oracle's answers
//! is specified and verified here.

pub mod bitflags;
pub mod command_line;
pub mod correction;
pub mod laws;
pub mod math;
pub mod object;
pub mod vec2;
pub mod velocity;
