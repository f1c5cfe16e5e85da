use vstd::prelude::*;
use vstd::string::*;

use crate::errors::RenderError;
use crate::frame::{DrawCall, FrameParams, IndexKind, ModelView, Perspective, PrimitiveKind,
    VertexAttrib};
use crate::geometry::GeometryBuffers;
use crate::program::ProgramInfo;

verus! {

/// How far the host got while acquiring a rendering context for the
/// identified canvas. The host probes step by step and stops at the
/// first failure, so a failing variant means no later step ran.
#[derive(Clone, Copy, Debug, PartialEq, Eq, Structural)]
pub enum CanvasProbe {
    /// No element with the identifier exists in the document.
    Missing,
    /// The element exists but is not a canvas surface.
    NotACanvas,
    /// The canvas returned no rendering context, or one of the wrong kind.
    NoContext,
    /// A rendering context was acquired.
    Acquired,
}

/// Maps the host's canvas probe to the renderer's answer: each failing
/// step yields its own error — a missing element carries the identifier
/// it looked for — and only an acquired context lets construction go on.
pub fn resolve_context(canvas_id: &str, probe: CanvasProbe) -> (r: Result<(), RenderError>)
    ensures
        r is Ok <==> probe is Acquired,
        probe is Missing ==> (r matches Err(RenderError::CanvasNotFound { id }) && id@
            == canvas_id@),
        probe is NotACanvas ==> r == Err::<(), RenderError>(RenderError::InvalidCanvasElement),
        probe is NoContext ==> r == Err::<(), RenderError>(RenderError::ContextAcquisitionFailed),
{
    match probe {
        CanvasProbe::Missing => Err(
            RenderError::CanvasNotFound { id: String::from_str(canvas_id) },
        ),
        CanvasProbe::NotACanvas => Err(RenderError::InvalidCanvasElement),
        CanvasProbe::NoContext => Err(RenderError::ContextAcquisitionFailed),
        CanvasProbe::Acquired => Ok(()),
    }
}

/// What a start request decides.
#[derive(Clone, Copy, Debug, PartialEq, Eq, Structural)]
pub enum StartAction {
    /// A frame is already pending: the request is a no-op success.
    AlreadyRunning,
    /// Nothing is pending: the host must request the first frame.
    RequestFrame,
}

/// The renderer's state: the program's binding table, the fixed cube
/// geometry, and the animation state. Timestamps are in whole
/// milliseconds; the rotation angle is in thousandths of a radian and
/// grows by the elapsed milliseconds of each frame, so the cube turns
/// at 0.001 radians per millisecond independent of the frame rate.
pub struct Cube {
    pub program_info: ProgramInfo,
    pub buffers: GeometryBuffers,
    /// The accumulated rotation angle, in thousandths of a radian.
    pub rotation_mrad: u64,
    /// The last-observed timestamp, in milliseconds.
    pub last_time_ms: u64,
    /// The pending-frame handle; present exactly while a frame request
    /// is outstanding with the host scheduler.
    pub animation_id: Option<i32>,
}

impl Cube {
    /// Validity: the rotation never exceeds the last timestamp (it
    /// starts at zero and grows by elapsed milliseconds, so it is
    /// bounded by the clock), and the geometry holds the fixed cube
    /// data.
    pub open spec fn wf(self) -> bool {
        &&& self.rotation_mrad <= self.last_time_ms
        &&& self.buffers.wf()
    }

    /// The state right after construction.
    pub open spec fn spec_new(
        program_info: ProgramInfo,
        buffers: GeometryBuffers,
        now_ms: u64,
    ) -> Cube {
        Cube { program_info, buffers, rotation_mrad: 0, last_time_ms: now_ms, animation_id: None }
    }

    /// What a start request decides in a given state.
    pub open spec fn spec_start(self) -> StartAction {
        if self.animation_id is Some {
            StartAction::AlreadyRunning
        } else {
            StartAction::RequestFrame
        }
    }

    /// The state after the host scheduler granted a frame request.
    pub open spec fn spec_scheduled(self, id: i32) -> Cube {
        Cube { animation_id: Some(id), ..self }
    }

    /// The state after a stop: nothing pending, all else untouched.
    pub open spec fn spec_stop(self) -> Cube {
        Cube { animation_id: None, ..self }
    }

    /// The state after drawing a frame at the given timestamp.
    pub open spec fn spec_render(self, time_ms: u64) -> Cube {
        Cube {
            rotation_mrad: (self.rotation_mrad + (time_ms - self.last_time_ms)) as u64,
            last_time_ms: time_ms,
            ..self
        }
    }

    /// What a frame drawn at the given timestamp consists of.
    pub open spec fn spec_frame_params(self, time_ms: u64) -> FrameParams {
        FrameParams {
            clear_color: true,
            clear_depth: true,
            projection: Perspective {
                fov_y_degrees: 45,
                aspect_thousandths: 1000,
                z_near_thousandths: 100,
                z_far_thousandths: 100000,
            },
            model_view: ModelView {
                translate_z: -6i32,
                euler_angle_mrad: self.spec_render(time_ms).rotation_mrad,
            },
            matrix_transpose: false,
            position_attrib: VertexAttrib {
                location: self.program_info.vertex_position,
                components: 3,
                normalized: false,
                stride: 0,
                offset: 0,
            },
            color_attrib: VertexAttrib {
                location: self.program_info.vertex_color,
                components: 4,
                normalized: false,
                stride: 0,
                offset: 0,
            },
            draw: DrawCall {
                mode: PrimitiveKind::Triangles,
                count: 36,
                index_kind: IndexKind::UnsignedShort,
                offset: 0,
            },
        }
    }

    /// What the per-frame callback does: a stale invocation (nothing
    /// pending) draws nothing and changes nothing; otherwise the frame
    /// is rendered.
    pub open spec fn spec_on_frame(self, time_ms: u64) -> (Cube, Option<FrameParams>) {
        if self.animation_id is Some {
            (self.spec_render(time_ms), Some(self.spec_frame_params(time_ms)))
        } else {
            (self, None)
        }
    }

    /// Builds the renderer's state once every construction step has
    /// succeeded: rotation zero, the given current time as the initial
    /// last-frame timestamp, and no frame pending.
    pub fn new(program_info: ProgramInfo, buffers: GeometryBuffers, now_ms: u64) -> (c: Cube)
        requires
            buffers.wf(),
        ensures
            c == Cube::spec_new(program_info, buffers, now_ms),
            c.wf(),
    {
        Cube { program_info, buffers, rotation_mrad: 0, last_time_ms: now_ms, animation_id: None }
    }

    /// Decides a start request. If a frame is already pending the
    /// request is a no-op success — starting twice never
    /// double-schedules. Otherwise the host must request the first
    /// frame and record its handle with `scheduled`, or report the
    /// host's refusal with `schedule_failed`.
    pub fn start(&self) -> (a: StartAction)
        ensures
            a == self.spec_start(),
    {
        if self.animation_id.is_some() {
            StartAction::AlreadyRunning
        } else {
            StartAction::RequestFrame
        }
    }

    /// Records the handle of a newly granted frame request: after the
    /// first request of `start`, and each time the per-frame callback
    /// re-arms itself. The new handle replaces the consumed one, so at
    /// most one is ever pending.
    pub fn scheduled(&mut self, id: i32)
        ensures
            *final(self) == old(self).spec_scheduled(id),
    {
        self.animation_id = Some(id);
    }

    /// A frame request was refused by the host scheduler: the driver
    /// is left with nothing pending — a failed first request leaves
    /// the state unstarted, a failed re-arm stops the chain — and the
    /// failure is the caller's to surface.
    pub fn schedule_failed(&mut self) -> (e: RenderError)
        ensures
            *final(self) == old(self).spec_stop(),
            e == RenderError::SchedulingFailed,
    {
        self.animation_id = None;
        RenderError::SchedulingFailed
    }

    /// Stops the animation: clears the pending-frame handle and hands
    /// back the handle the host must cancel, if one was pending.
    /// Stopping a renderer that was never started, or already stopped,
    /// changes nothing and cancels nothing.
    pub fn stop(&mut self) -> (cancel: Option<i32>)
        ensures
            *final(self) == old(self).spec_stop(),
            cancel == old(self).animation_id,
    {
        let id = self.animation_id;
        self.animation_id = None;
        id
    }

    /// Draws one frame at the given timestamp: the rotation grows by
    /// the milliseconds elapsed since the last frame (0.001 radians
    /// per millisecond), the timestamp is remembered, and the returned
    /// parameters tell the host exactly what to clear, bind, and draw.
    pub fn render(&mut self, time_ms: u64) -> (p: FrameParams)
        requires
            old(self).wf(),
            time_ms >= old(self).last_time_ms,
        ensures
            *final(self) == old(self).spec_render(time_ms),
            final(self).wf(),
            p == old(self).spec_frame_params(time_ms),
    {
        let delta = time_ms - self.last_time_ms;
        self.rotation_mrad = self.rotation_mrad + delta;
        self.last_time_ms = time_ms;
        FrameParams {
            clear_color: true,
            clear_depth: true,
            projection: Perspective {
                fov_y_degrees: 45,
                aspect_thousandths: 1000,
                z_near_thousandths: 100,
                z_far_thousandths: 100000,
            },
            model_view: ModelView { translate_z: -6, euler_angle_mrad: self.rotation_mrad },
            matrix_transpose: false,
            position_attrib: VertexAttrib {
                location: self.program_info.vertex_position,
                components: 3,
                normalized: false,
                stride: 0,
                offset: 0,
            },
            color_attrib: VertexAttrib {
                location: self.program_info.vertex_color,
                components: 4,
                normalized: false,
                stride: 0,
                offset: 0,
            },
            draw: DrawCall {
                mode: PrimitiveKind::Triangles,
                count: 36,
                index_kind: IndexKind::UnsignedShort,
                offset: 0,
            },
        }
    }

    /// The per-frame callback's entry: a stale invocation after a stop
    /// finds nothing pending, draws nothing, and changes nothing;
    /// while a frame is pending, the frame is rendered. The consumed
    /// handle stays recorded until the host re-arms the callback with
    /// `scheduled` or reports the refusal with `schedule_failed`.
    pub fn on_frame(&mut self, time_ms: u64) -> (p: Option<FrameParams>)
        requires
            old(self).wf(),
            old(self).animation_id is Some ==> time_ms >= old(self).last_time_ms,
        ensures
            *final(self) == old(self).spec_on_frame(time_ms).0,
            p == old(self).spec_on_frame(time_ms).1,
            final(self).wf(),
    {
        if self.animation_id.is_some() {
            Some(self.render(time_ms))
        } else {
            None
        }
    }
}

/// Idempotent start: once a frame request is recorded, a further start
/// request with no intervening stop decides to do nothing, and exactly
/// the one recorded handle stays pending.
pub proof fn lemma_start_idempotent(c: Cube, id: i32)
    requires
        c.spec_start() == StartAction::RequestFrame,
    ensures
        ({
            let started = c.spec_scheduled(id);
            &&& started.spec_start() == StartAction::AlreadyRunning
            &&& started.animation_id == Some(id)
        }),
{
}

/// Stop before start is safe: a freshly constructed renderer has
/// nothing pending, so stopping it changes nothing and hands the host
/// nothing to cancel.
pub proof fn lemma_stop_before_start(info: ProgramInfo, buffers: GeometryBuffers, now_ms: u64)
    ensures
        ({
            let fresh = Cube::spec_new(info, buffers, now_ms);
            &&& fresh.animation_id is None
            &&& fresh.spec_stop() == fresh
        }),
{
}

/// Stop cancels the pending schedule: stopping hands the host exactly
/// the pending handle to cancel, and any stale invocation of the
/// callback afterwards finds nothing pending, draws nothing, and
/// changes nothing.
pub proof fn lemma_stop_cancels(c: Cube, time_ms: u64)
    ensures
        c.spec_stop().animation_id is None,
        c.spec_stop().spec_on_frame(time_ms) == (c.spec_stop(), None::<FrameParams>),
{
}

/// Every frame issues the same single indexed draw: triangle-list
/// primitives, 36 indices of unsigned 16-bit type, starting at byte
/// offset zero.
pub proof fn lemma_draw_call_fixed(c: Cube, time_ms: u64)
    ensures
        c.spec_frame_params(time_ms).draw == (DrawCall {
            mode: PrimitiveKind::Triangles,
            count: 36,
            index_kind: IndexKind::UnsignedShort,
            offset: 0,
        }),
{
}

/// Frame timestamps the host scheduler may deliver: nondecreasing, and
/// starting no earlier than the renderer's last-observed time.
pub open spec fn timestamps_ok(c: Cube, ts: Seq<u64>) -> bool {
    &&& forall|i: int| 0 <= i < ts.len() - 1 ==> #[trigger] ts[i] <= ts[i + 1]
    &&& ts.len() > 0 ==> c.last_time_ms <= ts[0]
}

/// The state after rendering one frame per timestamp, in order.
pub open spec fn spec_render_all(c: Cube, ts: Seq<u64>) -> Cube
    decreases ts.len(),
{
    if ts.len() == 0 {
        c
    } else {
        spec_render_all(c.spec_render(ts[0]), ts.drop_first())
    }
}

/// The sum of the per-frame time deltas over a run of timestamps,
/// starting from a last-observed time.
pub open spec fn sum_of_deltas(last_ms: u64, ts: Seq<u64>) -> int
    decreases ts.len(),
{
    if ts.len() == 0 {
        0
    } else {
        (ts[0] - last_ms) + sum_of_deltas(ts[0], ts.drop_first())
    }
}

/// Rotation accumulates from time deltas: over any run of frames the
/// rotation grows by the sum of the per-frame deltas, each delta worth
/// 0.001 radians per millisecond — equivalently, by the time elapsed
/// up to the final frame. The rate is time-driven, never
/// frame-count-driven, and the rotation never decreases while frames
/// are delivered in order.
pub proof fn lemma_rotation_accumulates(c: Cube, ts: Seq<u64>)
    requires
        c.wf(),
        timestamps_ok(c, ts),
    ensures
        spec_render_all(c, ts).rotation_mrad == c.rotation_mrad + sum_of_deltas(
            c.last_time_ms,
            ts,
        ),
        ts.len() > 0 ==> spec_render_all(c, ts).rotation_mrad == c.rotation_mrad + (ts.last()
            - c.last_time_ms),
        spec_render_all(c, ts).rotation_mrad >= c.rotation_mrad,
        spec_render_all(c, ts).wf(),
    decreases ts.len(),
{
    if ts.len() > 0 {
        let c1 = c.spec_render(ts[0]);
        assert(c1.wf());
        assert(timestamps_ok(c1, ts.drop_first())) by {
            assert forall|i: int| 0 <= i < ts.drop_first().len() - 1 implies #[trigger] ts
                .drop_first()[i] <= ts.drop_first()[i + 1] by {
                assert(ts.drop_first()[i] == ts[i + 1]);
                assert(ts.drop_first()[i + 1] == ts[i + 2]);
            }
        }
        lemma_rotation_accumulates(c1, ts.drop_first());
        if ts.len() > 1 {
            assert(ts.drop_first().last() == ts.last());
        }
    }
}

} // verus!
