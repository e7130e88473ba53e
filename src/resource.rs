use vstd::prelude::*;

use crate::device::{BindGroupLayout, GpuDeviceContext};

verus! {

/// Why a resource object was not built.
#[derive(Clone, Copy, Debug, PartialEq, Eq, Structural)]
pub enum CreateError {
    /// The layout has no slot with the requested binding index.
    BindingNotInLayout,
}

/// Why a write was refused.
#[derive(Clone, Copy, Debug, PartialEq, Eq, Structural)]
pub enum WriteError {
    /// The context has no pipeline yet, so the binding shape is not fixed.
    PipelineNotReady,
    /// The value's byte length differs from the buffer's.
    SizeMismatch,
}

/// A uniform buffer resident on the device, with the bind group that exposes it
/// at one binding slot. The buffer's length is fixed when it is made; writes
/// replace its contents in place.
pub struct GpuResourceObject {
    contents: Vec<u8>,
    binding: u32,
    label: String,
    layout: BindGroupLayout,
}

impl GpuResourceObject {
    /// The bytes the buffer holds.
    pub closed spec fn contents_spec(&self) -> Seq<u8> {
        self.contents@
    }

    pub closed spec fn binding_spec(&self) -> u32 {
        self.binding
    }

    pub closed spec fn label_spec(&self) -> Seq<char> {
        self.label@
    }

    pub closed spec fn layout_spec(&self) -> BindGroupLayout {
        self.layout
    }

    /// Makes a buffer holding exactly the bytes of `initial` and binds it at
    /// `binding` of `layout`. Fails when `layout` has no slot `binding`.
    pub fn new(layout: BindGroupLayout, initial: Vec<u8>, binding: u32, label: String) -> (r: Result<
        GpuResourceObject,
        CreateError,
    >)
        ensures
            r is Ok <==> exists|i: int|
                0 <= i < layout.entries@.len() && layout.entries@[i].binding == binding,
            r is Err ==> r == Err::<GpuResourceObject, _>(CreateError::BindingNotInLayout),
            r matches Ok(o) ==> {
                &&& o.contents_spec() == initial@
                &&& o.binding_spec() == binding
                &&& o.label_spec() == label@
                &&& o.layout_spec() == layout
            },
    {
        if !layout.has_binding(binding) {
            return Err(CreateError::BindingNotInLayout);
        }
        Ok(GpuResourceObject { contents: initial, binding, label, layout })
    }

    /// Overwrites the buffer's contents with `value`, in place. Refused, with
    /// nothing changed, while the context has no pipeline or when `value` is
    /// not exactly as long as the buffer.
    pub fn write(&mut self, ctx: &GpuDeviceContext, value: &[u8]) -> (r: Result<(), WriteError>)
        ensures
            final(self).contents_spec().len() == old(self).contents_spec().len(),
            final(self).binding_spec() == old(self).binding_spec(),
            final(self).label_spec() == old(self).label_spec(),
            final(self).layout_spec() == old(self).layout_spec(),
            !ctx.pipeline_ready() ==> r == Err::<(), _>(WriteError::PipelineNotReady),
            ctx.pipeline_ready() && value@.len() != old(self).contents_spec().len() ==> r == Err::<
                (),
                _,
            >(WriteError::SizeMismatch),
            r is Ok <==> ctx.pipeline_ready() && value@.len() == old(self).contents_spec().len(),
            r is Ok ==> final(self).contents_spec() == value@,
            r is Err ==> final(self).contents_spec() == old(self).contents_spec(),
    {
        if ctx.pipeline.is_none() {
            return Err(WriteError::PipelineNotReady);
        }
        if value.len() != self.contents.len() {
            return Err(WriteError::SizeMismatch);
        }
        let mut i: usize = 0;
        while i < value.len()
            invariant
                i <= value@.len(),
                value@.len() == self.contents@.len(),
                self.binding == old(self).binding,
                self.label == old(self).label,
                self.layout == old(self).layout,
                forall|j: int| 0 <= j < i ==> self.contents@[j] == value@[j],
            decreases value@.len() - i,
        {
            self.contents.set(i, value[i]);
            i = i + 1;
        }
        assert(self.contents@ =~= value@);
        Ok(())
    }

    /// The bytes the buffer holds.
    pub fn contents(&self) -> (r: &[u8])
        ensures
            r@ == self.contents_spec(),
    {
        self.contents.as_slice()
    }

    /// The buffer's length in bytes.
    pub fn byte_len(&self) -> (r: usize)
        ensures
            r == self.contents_spec().len(),
    {
        self.contents.len()
    }

    /// The binding index the buffer is exposed at.
    pub fn binding(&self) -> (r: u32)
        ensures
            r == self.binding_spec(),
    {
        self.binding
    }

    pub fn label(&self) -> (r: &str)
        ensures
            r@ == self.label_spec(),
    {
        self.label.as_str()
    }

    /// The layout the bind group was built against.
    pub fn layout(&self) -> (r: &BindGroupLayout)
        ensures
            *r == self.layout_spec(),
    {
        &self.layout
    }
}

} // verus!
