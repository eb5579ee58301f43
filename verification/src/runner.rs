//! The offscreen pass runner: one render pass, with scoped target
//! binding.
//!
//! A pass binds a render target, sets the viewport, draws the proxy
//! geometry once, unbinds, and restores the framebuffer and viewport
//! that were bound before — so callers can issue passes back to back
//! without leaking rasterizer state. The runner writes pixels into the
//! target's attachment only and allocates nothing.

use vstd::prelude::*;

use crate::baker::ProxyGeometry;

verus! {

/// The rasterizer state a pass must leave as it found it.
#[derive(Clone, Copy, Debug, PartialEq, Eq, Structural)]
pub struct RasterState {
    /// The bound render target, if any; the default framebuffer
    /// otherwise.
    pub bound_target: Option<usize>,
    /// Viewport width in pixels.
    pub viewport_w: u32,
    /// Viewport height in pixels.
    pub viewport_h: u32,
}

/// One step a pass takes against the rasterizer, in order.
#[derive(Clone, Copy, Debug, PartialEq, Eq, Structural)]
pub enum PassAction {
    /// Bind the render target with this id.
    BindTarget(usize),
    /// Set the viewport to this width and height.
    SetViewport(u32, u32),
    /// Write the shader's inputs.
    WriteUniforms,
    /// Issue the one draw call of the proxy geometry.
    DrawProxy(ProxyGeometry),
    /// Unbind the render target.
    UnbindTarget,
    /// Restore the framebuffer that was bound before the pass.
    RestoreTarget(Option<usize>),
}

/// The steps of one pass into `target` at a square `viewport`, given
/// the state found on entry.
pub open spec fn spec_pass_trace(
    entry: RasterState,
    target: usize,
    viewport: u32,
    proxy: ProxyGeometry,
) -> Seq<PassAction> {
    seq![
        PassAction::BindTarget(target),
        PassAction::SetViewport(viewport, viewport),
        PassAction::WriteUniforms,
        PassAction::DrawProxy(proxy),
        PassAction::UnbindTarget,
        PassAction::RestoreTarget(entry.bound_target),
        PassAction::SetViewport(entry.viewport_w, entry.viewport_h),
    ]
}

/// Runs one offscreen pass: binds `target`, sets the square `viewport`,
/// writes the uniforms, draws `proxy` once, and unbinds. On exit the
/// rasterizer state is exactly what it was on entry, and the returned
/// trace is the exact step sequence for the application layer to
/// perform.
pub fn run_pass(state: &mut RasterState, target: usize, viewport: u32, proxy: ProxyGeometry) -> (
    trace: Vec<PassAction>)
    ensures
        *final(state) == *old(state),
        trace@ == spec_pass_trace(*old(state), target, viewport, proxy),
{
    let entry = *state;
    let mut trace: Vec<PassAction> = Vec::new();
    trace.push(PassAction::BindTarget(target));
    state.bound_target = Some(target);
    trace.push(PassAction::SetViewport(viewport, viewport));
    state.viewport_w = viewport;
    state.viewport_h = viewport;
    trace.push(PassAction::WriteUniforms);
    trace.push(PassAction::DrawProxy(proxy));
    trace.push(PassAction::UnbindTarget);
    state.bound_target = None;
    trace.push(PassAction::RestoreTarget(entry.bound_target));
    state.bound_target = entry.bound_target;
    trace.push(PassAction::SetViewport(entry.viewport_w, entry.viewport_h));
    state.viewport_w = entry.viewport_w;
    state.viewport_h = entry.viewport_h;
    proof {
        assert(trace@ =~= spec_pass_trace(entry, target, viewport, proxy));
    }
    trace
}

} // verus!
