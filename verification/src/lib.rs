//! The model behind a small viewer of probability distributions: the four
//! families with their parameter domains, the clamping of edits, the
//! evaluation of density and cumulative curves over a grid, and the state of
//! the viewer from one refresh to the next.
//!
//! Numbers are double-precision values held by their bit patterns, so that
//! every rule of the model is stated and proved over integers. The closed
//! formulas themselves are supplied by the caller as functions.

pub mod curve;
pub mod double;
pub mod field;
pub mod gamma;
pub mod gaussian;
pub mod lognormal;
pub mod state;
pub mod uniform;

pub use curve::{Chart, Curve, Family, Query, Series};
pub use double::Double;
pub use field::Field;
pub use gamma::{Gamma, GammaParams};
pub use gaussian::{Gaussian, GaussianParams};
pub use lognormal::{LogNormal, LogNormalParams};
pub use state::{Distributions, Frame, Parameters, VizProbApp};
pub use uniform::{Uniform, UniformParams};
