//! An incremental escape-time fractal engine.
//!
//! The crate computes generalized-power Mandelbrot and quadratic Julia-set
//! rasters over an exact fixed-point model of the complex plane, hands the
//! per-pixel iteration counts out in bounded batches so a cooperative host
//! can stay responsive, and maps iteration values to colors.

pub mod clock;
pub mod colors;
pub mod complex;
pub mod config;
pub mod escape;
pub mod fixed;
pub mod fractal;
pub mod messages;
pub mod stats;

pub use clock::MonotonicClock;
pub use complex::Complex;
pub use config::{ColorCfg, Config, JuliaSetCfg, MandelbrotCfg};
pub use escape::find_escape_radius;
pub use fixed::Fixed;
pub use fractal::{FractalCalculator, FractalKernel, FractalType, Points};
pub use messages::{CommandRequest, ControlMsgRequest};
pub use stats::Stats;
