use vstd::prelude::*;

verus! {

/// Every failure the renderer can report.
///
/// Construction stops at the first failing step and returns that step's
/// error; nothing is retried. Shader and program failures carry the
/// driver's diagnostic log verbatim.
#[derive(Debug, Clone)]
pub enum RenderError {
    /// No element with the requested identifier exists in the hosting document.
    CanvasNotFound { id: String },
    /// The element with that identifier is not a canvas surface.
    InvalidCanvasElement,
    /// The canvas surface returned no rendering context, or one of the wrong kind.
    ContextAcquisitionFailed,
    /// A shader unit failed to compile; `log` holds the driver's diagnostic text.
    ShaderCompileFailed { log: String },
    /// The shader program failed to link; `log` holds the driver's diagnostic text.
    ProgramLinkFailed { log: String },
    /// A GPU buffer allocation returned no handle.
    BufferAllocationFailed,
    /// The host scheduler refused to schedule the first animation frame.
    SchedulingFailed,
}

} // verus!
