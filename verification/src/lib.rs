//! Scene logic for rendering light paths bent by a spherically symmetric
//! gravitating body.
//!
//! The crate holds the exact, integer part of the renderer: which obstacle a
//! path segment meets and where, how a ray's trace ends, how a pixel is split
//! into sub-samples, how a temperature becomes a colour and how a radiance
//! buffer becomes displayable pixels. The numerical integration of the
//! geodesic itself is the caller's business; it hands each new position over
//! as fixed-point integers.
//!
//! Conventions:
//! - a length is an `i64` in a fixed unit of the caller's choice, the same for
//!   every length of a scene;
//! - an angle is an `i64` counted in units of which `obstacle::HALF_TURN` make
//!   up a half turn;
//! - a ratio that the caller turns back into a real number is a
//!   `fraction::Fraction`, exact and not reduced.

pub mod fraction;
pub mod obstacle;
pub mod space;
pub mod ray;
pub mod camera;
