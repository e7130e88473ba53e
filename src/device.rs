use vstd::prelude::*;

verus! {

/// Bit of a texture usage mask that allows the texture to be a render target.
pub const RENDER_ATTACHMENT: u32 = 16;

/// Pixel formats the runtime hands to the surface and the depth buffer.
#[derive(Clone, Copy, Debug, PartialEq, Eq, Structural)]
pub enum TextureFormat {
    Bgra8Unorm,
    Bgra8UnormSrgb,
    Depth32Float,
}

/// How the swapchain hands finished images to the compositor.
#[derive(Clone, Copy, Debug, PartialEq, Eq, Structural)]
pub enum PresentMode {
    Immediate,
    Mailbox,
    Fifo,
}

/// A size in physical pixels, as the windowing layer reports it.
#[derive(Clone, Copy, Debug, PartialEq, Eq, Structural)]
pub struct PhysicalSize {
    pub width: u32,
    pub height: u32,
}

impl PhysicalSize {
    pub fn new(width: u32, height: u32) -> (r: PhysicalSize)
        ensures
            r.width == width,
            r.height == height,
    {
        PhysicalSize { width, height }
    }

    /// A size that a swapchain can be built for: no side is zero.
    pub open spec fn is_positive(self) -> bool {
        self.width > 0 && self.height > 0
    }
}

/// What the swapchain is (re)built from.
#[derive(Clone, Copy, Debug, PartialEq, Eq, Structural)]
pub struct SwapChainDescriptor {
    pub usage: u32,
    pub format: TextureFormat,
    pub width: u32,
    pub height: u32,
    pub present_mode: PresentMode,
}

/// Extent and format of the depth buffer.
#[derive(Clone, Copy, Debug, PartialEq, Eq, Structural)]
pub struct DepthBuffer {
    pub width: u32,
    pub height: u32,
    pub format: TextureFormat,
}

/// Shader stages a binding is visible to.
#[derive(Clone, Copy, Debug, PartialEq, Eq, Structural)]
pub enum ShaderStage {
    Vertex,
    Fragment,
    VertexFragment,
}

/// What kind of resource sits behind a binding.
#[derive(Clone, Copy, Debug, PartialEq, Eq, Structural)]
pub enum BindingKind {
    UniformBuffer,
    StorageBuffer,
    Texture,
    Sampler,
}

/// One binding slot of a bind-group layout.
#[derive(Clone, Copy, Debug, PartialEq, Eq, Structural)]
pub struct LayoutEntry {
    pub binding: u32,
    pub visibility: ShaderStage,
    pub kind: BindingKind,
    pub has_dynamic_offset: bool,
}

/// The shape of a bind group: its binding slots.
#[derive(Clone, Debug)]
pub struct BindGroupLayout {
    pub entries: Vec<LayoutEntry>,
}

/// The one binding shape the runtime supports: a uniform buffer at slot 0,
/// seen by the vertex stage only, without dynamic offset.
pub open spec fn supported_entry(e: LayoutEntry) -> bool {
    e.binding == 0 && e.visibility == ShaderStage::Vertex && e.kind == BindingKind::UniformBuffer
        && !e.has_dynamic_offset
}

pub open spec fn supported_layout(l: BindGroupLayout) -> bool {
    l.entries@.len() == 1 && supported_entry(l.entries@[0])
}

impl BindGroupLayout {
    /// The supported shape: one vertex-stage uniform buffer at slot 0.
    pub fn uniform() -> (r: BindGroupLayout)
        ensures
            supported_layout(r),
    {
        let entry = LayoutEntry {
            binding: 0,
            visibility: ShaderStage::Vertex,
            kind: BindingKind::UniformBuffer,
            has_dynamic_offset: false,
        };
        BindGroupLayout { entries: vec![entry] }
    }

    pub fn is_supported(&self) -> (r: bool)
        ensures
            r == supported_layout(*self),
    {
        if self.entries.len() != 1 {
            return false;
        }
        let e = self.entries[0];
        e.binding == 0 && e.visibility == ShaderStage::Vertex && e.kind == BindingKind::UniformBuffer
            && !e.has_dynamic_offset
    }

    /// Whether some slot of the layout has the given binding index.
    pub fn has_binding(&self, binding: u32) -> (r: bool)
        ensures
            r == exists|i: int| 0 <= i < self.entries@.len() && self.entries@[i].binding == binding,
    {
        let mut i: usize = 0;
        while i < self.entries.len()
            invariant
                i <= self.entries@.len(),
                forall|j: int| 0 <= j < i ==> self.entries@[j].binding != binding,
            decreases self.entries@.len() - i,
        {
            if self.entries[i].binding == binding {
                return true;
            }
            i = i + 1;
        }
        false
    }
}

/// The render pipeline, once built: the layouts of its bind groups and its two
/// pre-built shader stages.
#[derive(Clone, Debug)]
pub struct RenderPipeline {
    pub layouts: Vec<BindGroupLayout>,
    pub vertex_bytecode: Vec<u8>,
    pub fragment_bytecode: Vec<u8>,
}

/// Why a pipeline was not built.
#[derive(Clone, Copy, Debug, PartialEq, Eq, Structural)]
pub enum PipelineError {
    /// A pipeline was built before; it is built once.
    AlreadyInitialized,
    /// One of the layouts has a shape other than the supported one.
    UnsupportedLayout,
}

/// The device context: the swapchain it presents to, its depth buffer and its
/// render pipeline, with the size they were last built for.
#[derive(Clone, Debug)]
pub struct GpuDeviceContext {
    pub size: PhysicalSize,
    pub sc_desc: SwapChainDescriptor,
    pub depth: DepthBuffer,
    pub pipeline: Option<RenderPipeline>,
}

/// The descriptor of a swapchain built for `size`, keeping format, usage and
/// present mode of `desc`.
pub open spec fn desc_for(desc: SwapChainDescriptor, size: PhysicalSize) -> SwapChainDescriptor {
    SwapChainDescriptor { width: size.width, height: size.height, ..desc }
}

/// A depth buffer of the extent of `size`.
pub open spec fn depth_for(size: PhysicalSize) -> DepthBuffer {
    DepthBuffer { width: size.width, height: size.height, format: TextureFormat::Depth32Float }
}

impl GpuDeviceContext {
    /// The swapchain is built for the recorded size, and the depth buffer
    /// matches the swapchain.
    pub open spec fn wf(self) -> bool {
        &&& self.size.is_positive()
        &&& self.sc_desc.usage == RENDER_ATTACHMENT
        &&& self.sc_desc.width == self.size.width
        &&& self.sc_desc.height == self.size.height
        &&& self.depth == depth_for(self.size)
    }

    /// The context after its swapchain and depth buffer were rebuilt for `size`.
    pub open spec fn resized(self, size: PhysicalSize) -> GpuDeviceContext {
        GpuDeviceContext {
            size,
            sc_desc: desc_for(self.sc_desc, size),
            depth: depth_for(size),
            ..self
        }
    }

    pub open spec fn pipeline_ready(self) -> bool {
        self.pipeline.is_some()
    }

    /// A context for a surface of `size`, with no pipeline yet; `None` when a
    /// side of `size` is zero.
    pub fn new(size: PhysicalSize, format: TextureFormat, present_mode: PresentMode) -> (r: Option<
        GpuDeviceContext,
    >)
        ensures
            r is Some <==> size.is_positive(),
            r matches Some(c) ==> {
                &&& c.wf()
                &&& c.size == size
                &&& c.sc_desc.format == format
                &&& c.sc_desc.present_mode == present_mode
                &&& c.pipeline is None
            },
    {
        if size.width == 0 || size.height == 0 {
            return None;
        }
        let sc_desc = SwapChainDescriptor {
            usage: RENDER_ATTACHMENT,
            format,
            width: size.width,
            height: size.height,
            present_mode,
        };
        let depth = DepthBuffer {
            width: size.width,
            height: size.height,
            format: TextureFormat::Depth32Float,
        };
        Some(GpuDeviceContext { size, sc_desc, depth, pipeline: None })
    }

    /// Rebuilds the swapchain and the depth buffer for `new_size`. A size with a
    /// zero side is not accepted and changes nothing. Returns whether the
    /// request was accepted.
    pub fn resize(&mut self, new_size: PhysicalSize) -> (accepted: bool)
        requires
            old(self).wf(),
        ensures
            final(self).wf(),
            accepted == new_size.is_positive(),
            accepted ==> *final(self) == old(self).resized(new_size),
            !accepted ==> *final(self) == *old(self),
    {
        if new_size.width == 0 || new_size.height == 0 {
            return false;
        }
        self.size = new_size;
        self.sc_desc.width = new_size.width;
        self.sc_desc.height = new_size.height;
        self.depth = DepthBuffer {
            width: new_size.width,
            height: new_size.height,
            format: TextureFormat::Depth32Float,
        };
        true
    }

    /// Builds the render pipeline from the bind-group layouts and the two
    /// shader stages. It is built once, and only from supported layouts.
    pub fn init_pipeline(
        &mut self,
        layouts: Vec<BindGroupLayout>,
        vertex_bytecode: Vec<u8>,
        fragment_bytecode: Vec<u8>,
    ) -> (r: Result<(), PipelineError>)
        requires
            old(self).wf(),
        ensures
            final(self).wf(),
            old(self).pipeline is Some ==> r == Err::<(), _>(PipelineError::AlreadyInitialized),
            old(self).pipeline is None && !(forall|i: int|
                0 <= i < layouts@.len() ==> supported_layout(#[trigger] layouts@[i]))
                ==> r == Err::<(), _>(PipelineError::UnsupportedLayout),
            r is Ok <==> (old(self).pipeline is None && forall|i: int|
                0 <= i < layouts@.len() ==> supported_layout(#[trigger] layouts@[i])),
            r is Err ==> *final(self) == *old(self),
            r is Ok ==> *final(self) == (GpuDeviceContext {
                pipeline: Some(RenderPipeline { layouts, vertex_bytecode, fragment_bytecode }),
                ..*old(self)
            }),
    {
        if self.pipeline.is_some() {
            return Err(PipelineError::AlreadyInitialized);
        }
        let mut i: usize = 0;
        while i < layouts.len()
            invariant
                i <= layouts@.len(),
                *self == *old(self),
                self.wf(),
                old(self).pipeline is None,
                forall|j: int| 0 <= j < i ==> supported_layout(#[trigger] layouts@[j]),
            decreases layouts@.len() - i,
        {
            if !layouts[i].is_supported() {
                return Err(PipelineError::UnsupportedLayout);
            }
            i = i + 1;
        }
        self.pipeline = Some(RenderPipeline { layouts, vertex_bytecode, fragment_bytecode });
        Ok(())
    }
}

/// Rebuilding for a size with no zero side records exactly that size in the
/// swapchain descriptor, and the depth buffer follows it.
pub proof fn lemma_resize_records_size(c: GpuDeviceContext, size: PhysicalSize)
    requires
        c.wf(),
        size.is_positive(),
    ensures
        c.resized(size).wf(),
        c.resized(size).sc_desc.width == size.width,
        c.resized(size).sc_desc.height == size.height,
        c.resized(size).depth.width == size.width,
        c.resized(size).depth.height == size.height,
{
}

/// Rebuilding twice for the same size leaves what the first rebuild left.
pub proof fn lemma_resize_idempotent(c: GpuDeviceContext, size: PhysicalSize)
    requires
        c.wf(),
    ensures
        c.resized(size).resized(size) == c.resized(size),
{
}

/// Rebuilding a well-formed context for the size it records changes nothing.
pub proof fn lemma_resize_to_own_size(c: GpuDeviceContext)
    requires
        c.wf(),
    ensures
        c.resized(c.size) == c,
{
}

} // verus!
