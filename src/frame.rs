use vstd::prelude::*;

use crate::device::{BindGroupLayout, GpuDeviceContext, PhysicalSize};
use crate::resource::GpuResourceObject;

verus! {

/// Why the next presentable image could not be had.
#[derive(Clone, Copy, Debug, PartialEq, Eq, Structural)]
pub enum FrameError {
    /// The swapchain was lost and has to be rebuilt.
    Lost,
    /// The surface changed under the swapchain; the next frame sorts it out.
    Outdated,
    /// Acquiring the image timed out; the next frame sorts it out.
    Timeout,
    /// No memory is left for a frame.
    OutOfMemory,
}

/// What came of one frame.
#[derive(Clone, Copy, Debug, PartialEq, Eq, Structural)]
pub enum FrameAction {
    /// The frame was submitted and presented.
    Presented,
    /// The frame was skipped and the swapchain and depth buffer were rebuilt
    /// for this size.
    Recreated(PhysicalSize),
    /// The frame was skipped; nothing needs doing.
    Skipped,
    /// The frame was skipped and the run loop has to end.
    Terminate,
}

/// One step of the command sequence a frame is recorded as.
#[derive(Clone, Copy, Debug, PartialEq, Eq, Structural)]
pub enum RenderCommand {
    /// Take the next presentable image of the swapchain.
    AcquireTarget,
    /// Open a render pass that clears color and depth.
    BeginPass,
    SetPipeline,
    /// Bind the resource object at this position of the list as the bind
    /// group of the same index.
    SetBindGroup(usize),
    Draw { vertices: u32, instances: u32 },
    /// Close the pass and submit the commands to the queue.
    Submit,
}

/// Why no frame could be recorded.
#[derive(Clone, Copy, Debug, PartialEq, Eq, Structural)]
pub enum RenderError {
    /// The context has no pipeline yet.
    PipelineNotReady,
    /// The number of resource objects differs from the pipeline's bind groups.
    ResourceCountMismatch,
    /// A resource object was built against another layout than the pipeline's
    /// bind group of its index.
    LayoutMismatch,
}

/// The commands of a frame that binds `n` resource objects.
pub open spec fn frame_commands(n: nat, vertices: u32, instances: u32) -> Seq<RenderCommand> {
    seq![RenderCommand::AcquireTarget, RenderCommand::BeginPass, RenderCommand::SetPipeline]
        + Seq::new(n, |i: int| RenderCommand::SetBindGroup(i as usize))
        + seq![RenderCommand::Draw { vertices, instances }, RenderCommand::Submit]
}

pub open spec fn same_layout(a: BindGroupLayout, b: BindGroupLayout) -> bool {
    a.entries@ == b.entries@
}

/// Whether resource `i` was built against the pipeline's layout of group `i`,
/// for every `i`.
pub open spec fn layouts_match(ctx: GpuDeviceContext, resources: Seq<&GpuResourceObject>) -> bool {
    forall|i: int|
        0 <= i < resources.len() ==> same_layout(
            #[trigger] resources[i].layout_spec(),
            ctx.pipeline->0.layouts@[i],
        )
}

pub fn layouts_equal(a: &BindGroupLayout, b: &BindGroupLayout) -> (r: bool)
    ensures
        r == same_layout(*a, *b),
{
    if a.entries.len() != b.entries.len() {
        return false;
    }
    let mut i: usize = 0;
    while i < a.entries.len()
        invariant
            i <= a.entries@.len(),
            a.entries@.len() == b.entries@.len(),
            forall|j: int| 0 <= j < i ==> a.entries@[j] == b.entries@[j],
        decreases a.entries@.len() - i,
    {
        if a.entries[i] != b.entries[i] {
            return false;
        }
        i = i + 1;
    }
    assert(a.entries@ =~= b.entries@);
    true
}

/// Records the commands of one frame that binds `resources` in order and draws
/// `vertices` vertices `instances` times.
pub fn plan_frame(
    ctx: &GpuDeviceContext,
    resources: &[&GpuResourceObject],
    vertices: u32,
    instances: u32,
) -> (r: Result<Vec<RenderCommand>, RenderError>)
    ensures
        ctx.pipeline is None ==> r == Err::<Vec<RenderCommand>, _>(RenderError::PipelineNotReady),
        ctx.pipeline matches Some(p) && resources@.len() != p.layouts@.len() ==> r == Err::<
            Vec<RenderCommand>,
            _,
        >(RenderError::ResourceCountMismatch),
        ctx.pipeline matches Some(p) && resources@.len() == p.layouts@.len() && !layouts_match(
            *ctx,
            resources@,
        ) ==> r == Err::<Vec<RenderCommand>, _>(RenderError::LayoutMismatch),
        r is Ok <==> (ctx.pipeline matches Some(p) && resources@.len() == p.layouts@.len()
            && layouts_match(*ctx, resources@)),
        r matches Ok(cmds) ==> cmds@ == frame_commands(resources@.len(), vertices, instances),
{
    let pipeline = match &ctx.pipeline {
        Some(p) => p,
        None => {
            return Err(RenderError::PipelineNotReady);
        },
    };
    if resources.len() != pipeline.layouts.len() {
        return Err(RenderError::ResourceCountMismatch);
    }
    let mut i: usize = 0;
    while i < resources.len()
        invariant
            i <= resources@.len(),
            ctx.pipeline == Some(*pipeline),
            resources@.len() == pipeline.layouts@.len(),
            forall|j: int|
                0 <= j < i ==> same_layout(
                    #[trigger] resources@[j].layout_spec(),
                    pipeline.layouts@[j],
                ),
        decreases resources@.len() - i,
    {
        if !layouts_equal(resources[i].layout(), &pipeline.layouts[i]) {
            return Err(RenderError::LayoutMismatch);
        }
        i = i + 1;
    }
    let mut cmds: Vec<RenderCommand> = Vec::new();
    cmds.push(RenderCommand::AcquireTarget);
    cmds.push(RenderCommand::BeginPass);
    cmds.push(RenderCommand::SetPipeline);
    let ghost head = cmds@;
    let mut g: usize = 0;
    while g < resources.len()
        invariant
            g <= resources@.len(),
            head == seq![RenderCommand::AcquireTarget, RenderCommand::BeginPass, RenderCommand::SetPipeline],
            cmds@ == head + Seq::new(g as nat, |k: int| RenderCommand::SetBindGroup(k as usize)),
        decreases resources@.len() - g,
    {
        cmds.push(RenderCommand::SetBindGroup(g));
        g = g + 1;
        assert(cmds@ =~= head + Seq::new(g as nat, |k: int| RenderCommand::SetBindGroup(k as usize)));
    }
    cmds.push(RenderCommand::Draw { vertices, instances });
    cmds.push(RenderCommand::Submit);
    assert(cmds@ =~= frame_commands(resources@.len(), vertices, instances));
    Ok(cmds)
}

/// What a frame with render status `result` comes to.
pub open spec fn action_for(ctx: GpuDeviceContext, result: Result<(), FrameError>) -> FrameAction {
    match result {
        Ok(()) => FrameAction::Presented,
        Err(FrameError::Lost) => FrameAction::Recreated(ctx.size),
        Err(FrameError::Outdated) => FrameAction::Skipped,
        Err(FrameError::Timeout) => FrameAction::Skipped,
        Err(FrameError::OutOfMemory) => FrameAction::Terminate,
    }
}

/// The context after a frame with render status `result`: rebuilt for its own
/// recorded size when the swapchain was lost, untouched otherwise.
pub open spec fn context_after_frame(
    ctx: GpuDeviceContext,
    result: Result<(), FrameError>,
) -> GpuDeviceContext {
    match result {
        Err(FrameError::Lost) => ctx.resized(ctx.size),
        _ => ctx,
    }
}

/// Acts on the status of a render call: a lost swapchain is rebuilt at once for
/// the size the context records, a fatal error ends the run, and the transient
/// ones skip the frame.
pub fn handle_render_result(ctx: &mut GpuDeviceContext, result: Result<(), FrameError>) -> (r:
    FrameAction)
    requires
        old(ctx).wf(),
    ensures
        final(ctx).wf(),
        r == action_for(*old(ctx), result),
        *final(ctx) == context_after_frame(*old(ctx), result),
{
    match result {
        Ok(()) => FrameAction::Presented,
        Err(FrameError::Lost) => {
            let size = ctx.size;
            ctx.resize(size);
            FrameAction::Recreated(size)
        },
        Err(FrameError::Outdated) => FrameAction::Skipped,
        Err(FrameError::Timeout) => FrameAction::Skipped,
        Err(FrameError::OutOfMemory) => FrameAction::Terminate,
    }
}

/// A lost swapchain is rebuilt, before any further frame, for the size the
/// context records at that moment, which leaves the context as it was built.
pub proof fn lemma_lost_frame_rebuilds_at_recorded_size(ctx: GpuDeviceContext)
    requires
        ctx.wf(),
    ensures
        action_for(ctx, Err(FrameError::Lost)) == FrameAction::Recreated(ctx.size),
        context_after_frame(ctx, Err(FrameError::Lost)) == ctx.resized(ctx.size),
        context_after_frame(ctx, Err(FrameError::Lost)) == ctx,
{
}

} // verus!
