use vstd::prelude::*;
use vstd::string::*;

use crate::errors::RenderError;

verus! {

/// The vertex shader: transforms each vertex by the model-view and
/// projection matrices and passes the vertex color through.
pub fn vertex_shader_source() -> (r: &'static str)
    ensures
        r@ == vertex_shader_source_spec(),
{
    "
    attribute vec4 aVertexPosition;
    attribute vec4 aVertexColor;

    uniform mat4 uModelViewMatrix;
    uniform mat4 uProjectionMatrix;

    varying lowp vec4 vColor;

    void main() {
        gl_Position = uProjectionMatrix * uModelViewMatrix * aVertexPosition;
        vColor = aVertexColor;
    }
"
}

pub open spec fn vertex_shader_source_spec() -> Seq<char> {
    "
    attribute vec4 aVertexPosition;
    attribute vec4 aVertexColor;

    uniform mat4 uModelViewMatrix;
    uniform mat4 uProjectionMatrix;

    varying lowp vec4 vColor;

    void main() {
        gl_Position = uProjectionMatrix * uModelViewMatrix * aVertexPosition;
        vColor = aVertexColor;
    }
"@
}

/// The fragment shader: colors each fragment with the interpolated
/// vertex color.
pub fn fragment_shader_source() -> (r: &'static str)
    ensures
        r@ == fragment_shader_source_spec(),
{
    "
    varying lowp vec4 vColor;

    void main() {
        gl_FragColor = vColor;
    }
"
}

pub open spec fn fragment_shader_source_spec() -> Seq<char> {
    "
    varying lowp vec4 vColor;

    void main() {
        gl_FragColor = vColor;
    }
"@
}

/// What the graphics driver reported about one build step (a shader
/// compilation or a program link): whether the object was created at
/// all, the step's success flag if the driver supplied a boolean one,
/// and the diagnostic log if one was available.
pub struct BuildStatus {
    pub created: bool,
    pub ok_flag: Option<bool>,
    pub info_log: Option<String>,
}

impl BuildStatus {
    /// The step succeeded: the object exists and the driver's success
    /// flag was a boolean true. A missing or non-boolean flag counts
    /// as failure.
    pub open spec fn succeeded(self) -> bool {
        self.created && self.ok_flag == Some(true)
    }
}

/// The diagnostic text for a failed build step: the driver's log
/// verbatim when one was available, else the given fallback message.
pub open spec fn diagnostic_spec(status: BuildStatus, fallback: Seq<char>) -> Seq<char> {
    match status.info_log {
        Some(log) => log@,
        None => fallback,
    }
}

/// Judges one shader compilation from the driver's report: success
/// exactly when the shader object was created and its compile flag was
/// true. On failure the error carries the driver's log, or a generic
/// message when the shader object could not be created at all or the
/// driver supplied no log.
pub fn compile_shader(status: BuildStatus) -> (r: Result<(), RenderError>)
    ensures
        r is Ok <==> status.succeeded(),
        !status.created ==> (r matches Err(RenderError::ShaderCompileFailed { log })
            && log@ == "Unable to create shader object"@),
        status.created && !status.succeeded() ==> (r matches Err(
            RenderError::ShaderCompileFailed { log },
        ) && log@ == diagnostic_spec(status, "Unknown error creating shader"@)),
{
    if !status.created {
        return Err(
            RenderError::ShaderCompileFailed { log: String::from_str("Unable to create shader object") },
        );
    }
    let ok = match status.ok_flag {
        Some(flag) => flag,
        None => false,
    };
    if ok {
        Ok(())
    } else {
        match status.info_log {
            Some(log) => Err(RenderError::ShaderCompileFailed { log }),
            None => Err(
                RenderError::ShaderCompileFailed {
                    log: String::from_str("Unknown error creating shader"),
                },
            ),
        }
    }
}

/// Judges one program link from the driver's report, with the same
/// success and fallback pattern as shader compilation.
pub fn link_program(status: BuildStatus) -> (r: Result<(), RenderError>)
    ensures
        r is Ok <==> status.succeeded(),
        !status.created ==> (r matches Err(RenderError::ProgramLinkFailed { log })
            && log@ == "Unable to create shader program"@),
        status.created && !status.succeeded() ==> (r matches Err(
            RenderError::ProgramLinkFailed { log },
        ) && log@ == diagnostic_spec(status, "Unknown error creating program"@)),
{
    if !status.created {
        return Err(
            RenderError::ProgramLinkFailed { log: String::from_str("Unable to create shader program") },
        );
    }
    let ok = match status.ok_flag {
        Some(flag) => flag,
        None => false,
    };
    if ok {
        Ok(())
    } else {
        match status.info_log {
            Some(log) => Err(RenderError::ProgramLinkFailed { log }),
            None => Err(
                RenderError::ProgramLinkFailed {
                    log: String::from_str("Unknown error creating program"),
                },
            ),
        }
    }
}

/// Where the linked program's inputs bind: the two attribute indices,
/// both resolved to valid non-negative locations, and whether each of
/// the two matrix uniforms is present in the program.
#[derive(Debug)]
pub struct ProgramInfo {
    pub vertex_position: u32,
    pub vertex_color: u32,
    pub has_projection_matrix: bool,
    pub has_model_view_matrix: bool,
}

/// Builds the program's binding table from the locations the driver
/// reported. The driver hands attribute locations back as signed
/// integers, negative when the attribute did not resolve; both
/// attributes must resolve or construction fails. The matrix uniforms
/// may be absent.
pub fn resolve_locations(
    vertex_position: i32,
    vertex_color: i32,
    has_projection_matrix: bool,
    has_model_view_matrix: bool,
) -> (r: Result<ProgramInfo, RenderError>)
    ensures
        r is Ok <==> (vertex_position >= 0 && vertex_color >= 0),
        r matches Ok(info) ==> info == (ProgramInfo {
            vertex_position: vertex_position as u32,
            vertex_color: vertex_color as u32,
            has_projection_matrix,
            has_model_view_matrix,
        }),
        r matches Err(e) ==> (e matches RenderError::ProgramLinkFailed { log }
            && log@ == "shader program is missing a vertex attribute"@),
{
    if vertex_position >= 0 && vertex_color >= 0 {
        Ok(
            ProgramInfo {
                vertex_position: vertex_position as u32,
                vertex_color: vertex_color as u32,
                has_projection_matrix,
                has_model_view_matrix,
            },
        )
    } else {
        Err(
            RenderError::ProgramLinkFailed {
                log: String::from_str("shader program is missing a vertex attribute"),
            },
        )
    }
}

} // verus!
