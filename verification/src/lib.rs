//! A verified two-body trajectory integrator.
//!
//! Each of two point masses feels a softened inverse-square acceleration
//! toward or away from the other along the line between them, and a
//! fixed-step fourth-order Runge-Kutta scheme advances both positions for a
//! requested number of steps. All coordinates, masses, the gravitational
//! constant and the time step are fixed-point scalars: an `i64` value `v`
//! stands for the real number `v / SCALE`. Every scaled operation is checked,
//! so a run either returns the exact trajectory of the mathematical model or
//! reports that an intermediate value left the representable range.

pub mod fixed;
pub mod sim;
pub mod laws;
