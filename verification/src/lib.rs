//! Orbit, zoom and ground-plane pan rules for a camera that circles a focus
//! point, computed exactly on fixed-point numbers.
//!
//! Every scalar counts millionths: an angle of one radian is `1_000_000`,
//! a length of twenty world units is `20_000_000`. The rules never build a
//! rotation or cast a ray themselves. The caller decomposes the camera's
//! orientation into angles, casts the cursor rays against the ground, and
//! hands the results in; the functions here decide what changes and compute
//! the new angles, projection, focus point and camera position.

pub mod cursor;
pub mod fixed;
pub mod orbit;
pub mod settings;
pub mod vector;
pub mod zoom;
