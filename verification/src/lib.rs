//! Decision layer of a semi-empirical drag-coefficient model for
//! axisymmetric projectiles (after McCoy's correlations).
//!
//! The model sums five drag components, each a closed-form correlation with
//! branch conditions at fixed Mach breakpoints. The floating-point arithmetic
//! of those closed forms cannot be verified and lives outside this crate; what
//! is verified here is every discrete decision the model makes: on which side
//! of each Mach breakpoint an input lies, which skin-friction correlation the
//! boundary-layer assumption selects for each surface, which closed form the
//! boattail component takes, how the input Mach number is clamped into the
//! validated range, and how a non-finite intermediate component is absorbed
//! to zero. A floating-point front end evaluates the formulas and routes each
//! of these decisions through the functions of this crate, handing every
//! number over as its raw IEEE 754 binary64 bit pattern.

pub mod drag;
pub mod ieee;
