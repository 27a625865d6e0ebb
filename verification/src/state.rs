//! The owned render state and the per-tick update rule.
//!
//! One value of [`RenderState`] owns everything the frame driver mutates:
//! the surface configuration, the camera uniform written once at startup,
//! the model uniform rewritten every tick, and the tick counter that stands
//! for the rotation angle — the angle is one hundredth of a radian per tick,
//! so the counter is the angle in centiradians. The laws at the end state
//! what holds after any number of ticks: the angle grows linearly and
//! monotonically, and the camera bytes and the surface configuration are
//! exactly what startup left.

use vstd::prelude::*;
use crate::geometry::INDEX_COUNT;
use crate::geometry::cube_index_seq;
use crate::surface::FormatInfo;
use crate::surface::PresentMode;
use crate::surface::SurfaceConfig;
use crate::surface::format_choice_ok;
use crate::uniforms::CameraTransform;
use crate::uniforms::MATRIX_BYTES;
use crate::uniforms::ModelTransform;
use crate::uniforms::UniformBuffer;

verus! {

/// What one render pass must do, fixed by the state at recording time.
#[derive(Clone, Copy, Debug, PartialEq, Eq, Structural)]
pub struct RenderPassPlan {
    /// The pass clears its one color target to opaque black before drawing.
    pub clear_to_black: bool,
    /// Whether a depth attachment is used; the cube pass uses none.
    pub use_depth: bool,
    /// How many indices the one draw covers.
    pub index_count: u32,
    /// How many instances the one draw covers.
    pub instance_count: u32,
    /// The first index of the draw.
    pub first_index: u32,
    /// The base vertex added to each index.
    pub base_vertex: i32,
    /// Width in pixels of the image the pass targets.
    pub target_width: u32,
    /// Height in pixels of the image the pass targets.
    pub target_height: u32,
}

/// The ghost image of a render state: what the laws below speak of.
pub struct StateSnapshot {
    /// Ticks elapsed since startup; the rotation angle in centiradians.
    pub ticks: int,
    /// The camera uniform's bytes.
    pub camera: Seq<u8>,
    /// The surface configuration.
    pub config: SurfaceConfig,
    /// The camera transform fixed at startup.
    pub camera_desc: CameraTransform,
}

/// The render state: the one owner of everything a tick mutates.
pub struct RenderState {
    /// The current surface configuration.
    pub config: SurfaceConfig,
    /// The camera uniform, written once at startup.
    pub camera: UniformBuffer,
    /// The model uniform, rewritten every tick.
    pub model: UniformBuffer,
    /// The camera transform the startup bytes were computed from.
    pub camera_desc: CameraTransform,
    /// Ticks elapsed since startup.
    pub ticks: u64,
}

impl View for RenderState {
    type V = StateSnapshot;

    open spec fn view(&self) -> StateSnapshot {
        StateSnapshot {
            ticks: self.ticks as int,
            camera: self.camera@,
            config: self.config,
            camera_desc: self.camera_desc,
        }
    }
}

impl RenderState {
    /// Well-formedness: the surface has a drawable area and each uniform
    /// holds exactly one matrix.
    pub open spec fn wf(self) -> bool {
        &&& self.config.wf()
        &&& self.camera.wf()
        &&& self.model.wf()
    }

    /// Builds the startup state. The caller supplies the startup window
    /// size, the backend's reported formats, the camera matrix bytes it
    /// computed for that size, and the identity matrix bytes the model
    /// uniform starts with.
    pub fn new(
        width: u32,
        height: u32,
        formats: &Vec<FormatInfo>,
        camera_bytes: Vec<u8>,
        model_bytes: Vec<u8>,
    ) -> (r: RenderState)
        requires
            width > 0,
            height > 0,
            formats@.len() > 0,
            camera_bytes@.len() == MATRIX_BYTES,
            model_bytes@.len() == MATRIX_BYTES,
        ensures
            r.wf(),
            r.ticks == 0,
            r.camera@ == camera_bytes@,
            r.model@ == model_bytes@,
            r.camera_desc == (CameraTransform { width, height }),
            r.config.width == width,
            r.config.height == height,
            format_choice_ok(formats@, r.config.format),
            r.config.present_mode == PresentMode::Fifo,
    {
        RenderState {
            config: SurfaceConfig::new(width, height, formats),
            camera: UniformBuffer::new(camera_bytes),
            model: UniformBuffer::new(model_bytes),
            camera_desc: CameraTransform { width, height },
            ticks: 0,
        }
    }

    /// The model transform for the current tick: a pure function of the
    /// tick counter, so recomputing it leaves an equal value.
    pub fn model_transform(&self) -> (r: ModelTransform)
        ensures
            r == (ModelTransform { ticks: self.ticks }),
    {
        ModelTransform { ticks: self.ticks }
    }

    /// The camera transform fixed at startup.
    pub fn camera_transform(&self) -> (r: CameraTransform)
        ensures
            r == self.camera_desc,
    {
        self.camera_desc
    }

    /// Advances the animation by one tick and returns the model transform
    /// the new tick's uniform bytes must be computed from. Nothing but the
    /// tick counter changes: in particular the camera uniform and the
    /// surface configuration stay as they were.
    pub fn tick(&mut self) -> (r: ModelTransform)
        requires
            old(self).wf(),
            old(self).ticks < u64::MAX,
        ensures
            final(self).wf(),
            final(self).ticks == old(self).ticks + 1,
            r == (ModelTransform { ticks: final(self).ticks }),
            final(self)@ == ticked(old(self)@),
            final(self).camera@ == old(self).camera@,
            final(self).model@ == old(self).model@,
            final(self).config == old(self).config,
            final(self).camera_desc == old(self).camera_desc,
    {
        self.ticks = self.ticks + 1;
        ModelTransform { ticks: self.ticks }
    }

    /// Stores the model matrix bytes computed for this tick into the model
    /// uniform. The camera uniform's bytes are untouched.
    pub fn write_model(&mut self, data: &Vec<u8>)
        requires
            old(self).wf(),
            data@.len() == MATRIX_BYTES,
        ensures
            final(self).wf(),
            final(self).model@ == data@,
            final(self)@ == old(self)@,
            final(self).camera@ == old(self).camera@,
            final(self).config == old(self).config,
            final(self).ticks == old(self).ticks,
    {
        self.model.write(data);
    }

    /// Applies a window resize: the surface configuration follows the new
    /// size, and nothing else changes — not the format, not the camera, not
    /// the tick counter.
    pub fn resize(&mut self, width: u32, height: u32)
        requires
            old(self).wf(),
            width > 0,
            height > 0,
        ensures
            final(self).wf(),
            final(self).config.width == width,
            final(self).config.height == height,
            final(self).config.format == old(self).config.format,
            final(self).config.present_mode == old(self).config.present_mode,
            final(self).camera@ == old(self).camera@,
            final(self).model@ == old(self).model@,
            final(self).ticks == old(self).ticks,
            final(self).camera_desc == old(self).camera_desc,
    {
        self.config.resize(width, height);
    }

    /// The plan of this tick's render pass: clear the target to opaque
    /// black, no depth attachment, one indexed draw of all thirty-six cube
    /// indices and one instance, targeting an image of the configured size.
    pub fn render_pass_plan(&self) -> (r: RenderPassPlan)
        requires
            self.wf(),
        ensures
            r == (RenderPassPlan {
                clear_to_black: true,
                use_depth: false,
                index_count: INDEX_COUNT as u32,
                instance_count: 1,
                first_index: 0,
                base_vertex: 0,
                target_width: self.config.width,
                target_height: self.config.height,
            }),
            r.index_count == cube_index_seq().len(),
            r.target_width > 0,
            r.target_height > 0,
    {
        RenderPassPlan {
            clear_to_black: true,
            use_depth: false,
            index_count: 36,
            instance_count: 1,
            first_index: 0,
            base_vertex: 0,
            target_width: self.config.width,
            target_height: self.config.height,
        }
    }
}

/// One tick, on the ghost image of the state: the tick counter advances,
/// everything else stays.
pub open spec fn ticked(m: StateSnapshot) -> StateSnapshot {
    StateSnapshot { ticks: m.ticks + 1, ..m }
}

/// The ghost image of the state after `n` further ticks.
pub open spec fn after_ticks(m: StateSnapshot, n: nat) -> StateSnapshot
    decreases n,
{
    if n == 0 {
        m
    } else {
        ticked(after_ticks(m, (n - 1) as nat))
    }
}

/// Law: after any number of ticks the rotation angle is exactly one
/// centiradian per tick — from a fresh state, `n` ticks leave the angle at
/// `0.01 * n` radians — and the camera uniform, the camera transform and
/// the surface configuration are exactly what startup left.
pub proof fn lemma_after_ticks(m: StateSnapshot, n: nat)
    ensures
        after_ticks(m, n).ticks == m.ticks + n,
        m.ticks == 0 ==> after_ticks(m, n).ticks == n,
        after_ticks(m, n).camera == m.camera,
        after_ticks(m, n).config == m.config,
        after_ticks(m, n).camera_desc == m.camera_desc,
    decreases n,
{
    if n > 0 {
        lemma_after_ticks(m, (n - 1) as nat);
    }
}

/// Law: the rotation angle never decreases as ticks elapse.
pub proof fn lemma_rotation_monotonic(m: StateSnapshot, n1: nat, n2: nat)
    requires
        n1 <= n2,
    ensures
        after_ticks(m, n1).ticks <= after_ticks(m, n2).ticks,
{
    lemma_after_ticks(m, n1);
    lemma_after_ticks(m, n2);
}

} // verus!
