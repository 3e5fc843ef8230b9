//! The message vocabulary between a host's control surface and the engine
//! driver: commands that start and stop a run, and notifications that report
//! its progress back, including a rectangle selected on the rendered canvas.

use vstd::prelude::*;

verus! {

/// A command sent from the host's control surface to the engine driver.
#[derive(Debug, Clone, PartialEq)]
pub enum CommandRequest {
    /// Begin a fresh run over the active configuration.
    Start,
    /// Pause the run; the calculator keeps its cursor.
    Stop,
    /// Pause the run and clear the rendered output.
    Clear,
    /// Export the rendered output.
    Copy,
}

/// A notification sent from the engine driver back to the host's control
/// surface and configuration editors.
#[derive(Debug, Clone, PartialEq)]
pub enum ControlMsgRequest {
    /// A run has started.
    FractalStarted,
    /// A progress report, as a display string.
    FractalProgress(String),
    /// The run has paused or finished.
    FractalPaused,
    /// A rectangle selected on the canvas, as two corner coordinates.
    CanvasSelectMsg(u32, u32, u32, u32),
}

} // verus!
