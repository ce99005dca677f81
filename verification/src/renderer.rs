//! The renderer's decisions: when to draw, what to recreate first, and
//! what to remember afterwards.
//!
//! The renderer itself never touches the graphics device. Its owner asks it
//! what to do for an input (`render`), carries the answer out, and reports
//! how the read-back ended (`finish`). One frame is under way at a time.

use vstd::prelude::*;
use crate::geometry::{Geometry, GeometryStore};
use crate::input::{MapInput, PhysicalSize};
use crate::pipeline::{DrawCall, Mesh};
use crate::readback::{readback_fits, repack, repacked, PixelBuffer, Pixels, RenderError};
use crate::target::{lemma_target_of_is_valid, row_stride, RenderTarget, ResourceError};

verus! {

/// What the owner has to do to draw one frame.
///
/// The colour target is cleared to transparent black and the depth target
/// to the far plane; the two draw calls are made in their order; the colour
/// texture is copied into the read-back buffer. The model-view matrices of
/// both meshes are written for every plan.
#[derive(Clone, Copy, Debug)]
pub struct DrawPlan {
    /// The input to derive the matrices from.
    pub input: MapInput,
    /// The target to draw into.
    pub target: RenderTarget,
    /// Whether the textures and the read-back buffer have to be created
    /// anew for `target` before drawing.
    pub recreate_target: bool,
    /// Whether the projection matrix has to be written for the size of
    /// `target`.
    pub update_projection: bool,
    /// The first draw call: the land, as filled triangles.
    pub first: DrawCall,
    /// The second draw call: the coastline, as a line strip on top.
    pub second: DrawCall,
}

/// The renderer's answer to an input.
#[derive(Clone, Copy, Debug)]
pub enum RenderStep {
    /// The input equals the one of the last delivered frame: the graphics
    /// device is left alone.
    Unchanged,
    /// The input asks for a viewport without pixels: nothing is drawn and
    /// the existing target stays as it is.
    NoSurface(ResourceError),
    /// A frame has to be drawn.
    Draw(DrawPlan),
}

/// Where the renderer stands between two calls. A target is created anew
/// within a call, so that no call ever finds the renderer resizing.
#[derive(Clone, Copy, Debug, PartialEq, Eq, Structural)]
pub enum Phase {
    /// No frame is under way.
    Ready,
    /// A frame was planned and its read-back has not been reported yet.
    Rendering,
}

/// What the renderer remembers between calls.
#[derive(Clone, Copy, Debug)]
pub struct RendererState {
    /// The target that is known to exist on the device.
    pub target: Option<RenderTarget>,
    /// The size that the projection matrix on the device is known to be
    /// computed for.
    pub projection_size: Option<PhysicalSize>,
    /// The input of the last frame that was delivered.
    pub last_input: Option<MapInput>,
    /// The input of the frame under way.
    pub pending: Option<MapInput>,
}

impl RendererState {
    /// The target is laid out for its size, and a frame under way is drawn
    /// into a target of the size it asked for.
    pub open spec fn valid(self) -> bool {
        &&& self.target matches Some(target) ==> target.valid()
        &&& self.pending matches Some(pending) ==> {
            &&& self.target matches Some(target)
            &&& target.size == pending.size
        }
    }

    pub open spec fn phase(self) -> Phase {
        if self.pending is Some {
            Phase::Rendering
        } else {
            Phase::Ready
        }
    }

    /// The state of a new renderer for a viewport size.
    pub open spec fn initial(size: PhysicalSize) -> RendererState {
        RendererState {
            target: if size.is_empty() {
                None
            } else {
                Some(RenderTarget::of(size))
            },
            projection_size: None,
            last_input: None,
            pending: None,
        }
    }

    /// Whether a frame for this input was the last one delivered.
    pub open spec fn is_unchanged(self, input: MapInput) -> bool {
        self.last_input matches Some(last) && last.same_value(input)
    }

    /// The plan for an input that has to be drawn.
    pub open spec fn plan(self, input: MapInput, geometry: Geometry) -> DrawPlan {
        DrawPlan {
            input,
            target: RenderTarget::of(input.size),
            recreate_target: !(self.target matches Some(target) && target.size == input.size),
            update_projection: self.projection_size != Some(input.size),
            first: DrawCall::of(Mesh::Land, (3 * geometry.land_indices.len()) as u32),
            second: DrawCall::of(Mesh::Contour, geometry.contour_indices.len() as u32),
        }
    }

    /// The answer to an input.
    pub open spec fn step(self, input: MapInput, geometry: Geometry) -> RenderStep {
        if self.is_unchanged(input) {
            RenderStep::Unchanged
        } else if input.size.is_empty() {
            RenderStep::NoSurface(ResourceError { requested: input.size })
        } else {
            RenderStep::Draw(self.plan(input, geometry))
        }
    }

    /// The state after the answer to an input was given.
    pub open spec fn after_render(self, input: MapInput) -> RendererState {
        if self.is_unchanged(input) || input.size.is_empty() {
            self
        } else {
            RendererState {
                target: Some(RenderTarget::of(input.size)),
                projection_size: Some(input.size),
                last_input: self.last_input,
                pending: Some(input),
            }
        }
    }

    /// The state after a resize was requested. A frame under way is given
    /// up when the target is created anew.
    pub open spec fn after_resize(self, size: PhysicalSize) -> RendererState {
        if size.is_empty() {
            self
        } else {
            RendererState {
                target: Some(RenderTarget::of(size)),
                projection_size: self.projection_size,
                last_input: self.last_input,
                pending: None,
            }
        }
    }

    /// What the report of a read-back yields: the image, or the reason why
    /// there is none. `None` stands for a failure of the device.
    pub open spec fn completion(self, readback: Option<Seq<u8>>) -> Result<Pixels, RenderError> {
        match (self.pending, self.target, readback) {
            (Some(_), Some(target), Some(bytes)) => {
                if readback_fits(
                    bytes.len(),
                    target.size.width as nat,
                    target.size.height as nat,
                    target.row_stride as nat,
                ) {
                    Ok(
                        Pixels {
                            size: target.size,
                            data: repacked(
                                bytes,
                                target.size.width as nat,
                                target.size.height as nat,
                                target.row_stride as nat,
                            ),
                        },
                    )
                } else {
                    Err(RenderError::ReadbackSize)
                }
            },
            (Some(_), _, _) => Err(RenderError::Device),
            (None, _, _) => Err(RenderError::NotRendering),
        }
    }

    /// The state after the report of a read-back.
    ///
    /// Only a delivered frame is remembered. After a failed frame nothing
    /// on the device is relied on any more: the next plan creates the
    /// target anew and writes the projection again. A report without a
    /// frame under way changes nothing.
    pub open spec fn after_finish(self, readback: Option<Seq<u8>>) -> RendererState {
        match self.completion(readback) {
            Ok(_) => RendererState {
                target: self.target,
                projection_size: self.projection_size,
                last_input: self.pending,
                pending: None,
            },
            Err(RenderError::NotRendering) => self,
            Err(_) => RendererState {
                target: None,
                projection_size: None,
                last_input: self.last_input,
                pending: None,
            },
        }
    }
}

/// The bytes of a reported read-back as a sequence.
pub open spec fn readback_view(readback: Option<&[u8]>) -> Option<Seq<u8>> {
    match readback {
        Some(bytes) => Some(bytes@),
        None => None,
    }
}

/// The composition root of the globe view: geometry, the shape of the
/// current target, and the memory of what was drawn last.
pub struct Renderer {
    geometry: GeometryStore,
    state: RendererState,
}

impl View for Renderer {
    type V = RendererState;

    closed spec fn view(&self) -> RendererState {
        self.state
    }
}

impl Renderer {
    #[verifier::type_invariant]
    spec fn well_formed(&self) -> bool {
        self.state.valid()
    }

    /// The geometry that the renderer draws.
    pub closed spec fn geometry_view(&self) -> Geometry {
        self.geometry@
    }

    /// A renderer for the given geometry and an initial viewport size. A
    /// size without pixels is no error: the renderer then has no target
    /// until a size with pixels is requested.
    pub fn new(geometry: GeometryStore, size: PhysicalSize) -> (renderer: Renderer)
        ensures
            renderer@ == RendererState::initial(size),
            renderer@.valid(),
            renderer.geometry_view() == geometry@,
    {
        let target = match RenderTarget::for_size(size) {
            Ok(target) => Some(target),
            Err(_) => None,
        };
        Renderer {
            geometry,
            state: RendererState { target, projection_size: None, last_input: None, pending: None },
        }
    }

    /// Creates the target anew for a size.
    ///
    /// A size without pixels is refused; the renderer then stays exactly as
    /// it was. Any other size succeeds and gives up a frame under way.
    pub fn resize(&mut self, size: PhysicalSize) -> (r: Result<RenderTarget, ResourceError>)
        ensures
            final(self)@ == old(self)@.after_resize(size),
            final(self)@.valid(),
            final(self).geometry_view() == old(self).geometry_view(),
            match r {
                Ok(target) => {
                    &&& !size.is_empty()
                    &&& target == RenderTarget::of(size)
                    &&& target.readback_len == row_stride(size.width as nat) * size.height
                },
                Err(e) => size.is_empty() && e.requested == size,
            },
    {
        proof {
            use_type_invariant(&*self);
        }
        match RenderTarget::for_size(size) {
            Ok(target) => {
                self.state = RendererState {
                    target: Some(target),
                    projection_size: self.state.projection_size,
                    last_input: self.state.last_input,
                    pending: None,
                };
                Ok(target)
            },
            Err(e) => Err(e),
        }
    }

    /// Decides what an input calls for.
    ///
    /// An input that equals the one of the last delivered frame calls for
    /// nothing. Otherwise a size without pixels is refused, and any other
    /// input yields a plan; the frame is then under way until `finish` is
    /// called.
    pub fn render(&mut self, input: MapInput) -> (step: RenderStep)
        ensures
            step == old(self)@.step(input, old(self).geometry_view()),
            final(self)@ == old(self)@.after_render(input),
            final(self)@.valid(),
            final(self).geometry_view() == old(self).geometry_view(),
    {
        proof {
            use_type_invariant(&*self);
        }
        if let Some(last) = self.state.last_input {
            if last == input {
                return RenderStep::Unchanged;
            }
        }
        let target = match RenderTarget::for_size(input.size) {
            Ok(target) => target,
            Err(e) => {
                return RenderStep::NoSurface(e);
            },
        };
        let recreate_target = match self.state.target {
            Some(current) => current.size != input.size,
            None => true,
        };
        let update_projection = match self.state.projection_size {
            Some(size) => size != input.size,
            None => true,
        };
        let plan = DrawPlan {
            input,
            target,
            recreate_target,
            update_projection,
            first: DrawCall::new(Mesh::Land, self.geometry.land_index_count()),
            second: DrawCall::new(Mesh::Contour, self.geometry.contour_vertex_count()),
        };
        self.state = RendererState {
            target: Some(target),
            projection_size: Some(input.size),
            last_input: self.state.last_input,
            pending: Some(input),
        };
        RenderStep::Draw(plan)
    }

    /// Takes the report of the read-back of the frame under way: the mapped
    /// bytes, or `None` where the device failed.
    ///
    /// Where the bytes have the shape of the read-back buffer, the frame is
    /// delivered without its row padding and its input is remembered. In
    /// every other case nothing is delivered and nothing is remembered, so
    /// that the next input is drawn again, on a target created anew.
    pub fn finish(&mut self, readback: Option<&[u8]>) -> (r: Result<PixelBuffer, RenderError>)
        ensures
            final(self)@ == old(self)@.after_finish(readback_view(readback)),
            final(self)@.valid(),
            final(self).geometry_view() == old(self).geometry_view(),
            match r {
                Ok(pixels) => old(self)@.completion(readback_view(readback)) == Ok::<
                    Pixels,
                    RenderError,
                >(pixels@),
                Err(e) => old(self)@.completion(readback_view(readback)) == Err::<
                    Pixels,
                    RenderError,
                >(e),
            },
    {
        proof {
            use_type_invariant(&*self);
        }
        let previous = self.state;
        let pending = match previous.pending {
            Some(pending) => pending,
            None => {
                return Err(RenderError::NotRendering);
            },
        };
        let outcome = match (previous.target, readback) {
            (Some(target), Some(bytes)) => repack(bytes, target.size, target.row_stride),
            _ => Err(RenderError::Device),
        };
        self.state = if outcome.is_ok() {
            RendererState {
                target: previous.target,
                projection_size: previous.projection_size,
                last_input: Some(pending),
                pending: None,
            }
        } else {
            RendererState {
                target: None,
                projection_size: None,
                last_input: previous.last_input,
                pending: None,
            }
        };
        outcome
    }

    /// The target that is known to exist on the device.
    pub fn target(&self) -> (target: Option<RenderTarget>)
        ensures
            target == self@.target,
    {
        self.state.target
    }

    /// The input of the last delivered frame.
    pub fn last_input(&self) -> (input: Option<MapInput>)
        ensures
            input == self@.last_input,
    {
        self.state.last_input
    }

    pub fn phase(&self) -> (phase: Phase)
        ensures
            phase == self@.phase(),
    {
        if self.state.pending.is_some() {
            Phase::Rendering
        } else {
            Phase::Ready
        }
    }

    pub fn geometry(&self) -> (geometry: &GeometryStore)
        ensures
            geometry@ == self.geometry_view(),
    {
        &self.geometry
    }
}

/// The first input is always drawn: a renderer that has delivered no frame
/// yet answers every input that asks for pixels with a plan.
pub proof fn lemma_first_input_is_drawn(state: RendererState, geometry: Geometry, input: MapInput)
    requires
        state.last_input is None,
        !input.size.is_empty(),
    ensures
        state.step(input, geometry) is Draw,
        RendererState::initial(input.size).step(input, geometry) matches RenderStep::Draw(plan)
            && !plan.recreate_target && plan.update_projection,
{
}

/// Asking twice for the same frame draws it once.
///
/// Take any input that can equal itself (no component is a NaN) and that asks
/// for a viewport with pixels. If the first answer is a plan and its frame is
/// delivered, the second answer is `Unchanged` and leaves the renderer as it
/// is. If the first answer is `Unchanged` already, nothing is drawn at all.
pub proof fn lemma_render_twice_draws_once(
    state: RendererState,
    geometry: Geometry,
    input: MapInput,
    readback: Seq<u8>,
)
    requires
        state.valid(),
        input.is_comparable(),
        !input.size.is_empty(),
        readback_fits(
            readback.len(),
            input.size.width as nat,
            input.size.height as nat,
            row_stride(input.size.width as nat),
        ),
    ensures
        state.step(input, geometry) is Draw || state.step(input, geometry) is Unchanged,
        state.step(input, geometry) is Unchanged ==> state.after_render(input) == state,
        state.step(input, geometry) is Draw ==> ({
            let drawn = state.after_render(input);
            let delivered = drawn.after_finish(Some(readback));
            &&& drawn.phase() == Phase::Rendering
            &&& drawn.completion(Some(readback)) is Ok
            &&& delivered.phase() == Phase::Ready
            &&& delivered.last_input == Some(input)
            &&& delivered.step(input, geometry) is Unchanged
            &&& delivered.after_render(input) == delivered
        }),
{
}

/// A failed frame is drawn again from scratch.
///
/// Where a planned frame is not delivered, the renderer remembers the same
/// last input as before the plan, and it answers the same input with a plan
/// that creates the target anew and writes the projection again.
pub proof fn lemma_failed_frame_is_retried(
    state: RendererState,
    geometry: Geometry,
    input: MapInput,
    readback: Option<Seq<u8>>,
)
    requires
        state.valid(),
        state.step(input, geometry) is Draw,
        state.after_render(input).completion(readback) is Err,
    ensures
        state.after_render(input).after_finish(readback).last_input == state.last_input,
        state.after_render(input).after_finish(readback).phase() == Phase::Ready,
        state.after_render(input).after_finish(readback).step(input, geometry) matches RenderStep::Draw(
            plan,
        ) && plan.recreate_target && plan.update_projection,
{
}

/// A refused resize changes nothing, and the next resize to a size with
/// pixels puts a target of exactly that size in place, whose read-back
/// buffer holds one aligned row for each row of pixels.
pub proof fn lemma_resize_recovers(state: RendererState, refused: PhysicalSize, size: PhysicalSize)
    requires
        state.valid(),
        refused.is_empty(),
        !size.is_empty(),
    ensures
        state.after_resize(refused) == state,
        state.after_resize(refused).after_resize(size).target == Some(RenderTarget::of(size)),
        RenderTarget::of(size).valid(),
        RenderTarget::of(size).readback_len == row_stride(size.width as nat) * size.height,
        state.after_resize(refused).after_resize(size).valid(),
{
    lemma_target_of_is_valid(size);
}

/// Every step keeps the state valid.
pub proof fn lemma_steps_keep_valid(
    state: RendererState,
    input: MapInput,
    size: PhysicalSize,
    readback: Option<Seq<u8>>,
)
    requires
        state.valid(),
    ensures
        RendererState::initial(size).valid(),
        state.after_render(input).valid(),
        state.after_resize(size).valid(),
        state.after_finish(readback).valid(),
{
    if !size.is_empty() {
        lemma_target_of_is_valid(size);
    }
    if !input.size.is_empty() {
        lemma_target_of_is_valid(input.size);
    }
}

} // verus!
