use vstd::prelude::*;
use crate::device::{Device, tri};
use crate::descriptor::{DescriptorType, descriptor_type_code};
use crate::error::{Error, SUCCESS, ERROR_UNKNOWN, ERROR_INITIALIZATION_FAILED};
use crate::pipeline::Release;

verus! {

/// The shader-stage bit of compute shaders.
pub const SHADER_STAGE_COMPUTE: u32 = 32;

/// One binding of a descriptor-set layout: its number, the code of its descriptor type, how
/// many descriptors it holds and the shader stages that see it.
#[derive(Clone, Copy, PartialEq, Eq, Structural, Debug, Hash)]
pub struct LayoutBinding {
    pub binding: u32,
    pub ty: i32,
    pub count: u32,
    pub stages: u32,
}

/// A shader: its module and the layout of its one descriptor set, both non-null, on a device.
pub struct Shader {
    module: u64,
    layout: u64,
    device: Device,
}

impl Shader {
    #[verifier::type_invariant]
    spec fn handles_not_null(self) -> bool {
        self.module != 0 && self.layout != 0
    }

    /// The shader module's handle.
    pub closed spec fn module_spec(&self) -> u64 {
        self.module
    }

    /// The descriptor-set layout's handle.
    pub closed spec fn layout_spec(&self) -> u64 {
        self.layout
    }

    /// The device.
    pub closed spec fn device_spec(&self) -> Device {
        self.device
    }

    /// The shader module's handle; never zero.
    pub fn module(&self) -> (r: u64)
        ensures
            r == self.module_spec(),
            r != 0,
    {
        proof {
            use_type_invariant(self);
        }
        self.module
    }

    /// The descriptor-set layout's handle; never zero.
    pub fn layout(&self) -> (r: u64)
        ensures
            r == self.layout_spec(),
            r != 0,
    {
        proof {
            use_type_invariant(self);
        }
        self.layout
    }

    /// The device.
    pub fn device(&self) -> (r: &Device)
        ensures
            *r == self.device_spec(),
    {
        &self.device
    }
}

/// What a shader is to be made with: the bindings of its descriptor set, the set layout's
/// flags, the stages that see the bindings, its device and its entry point's name.
pub struct Builder {
    bindings: Vec<LayoutBinding>,
    flags: u32,
    stage: u32,
    device: Device,
    entry: String,
}

impl Builder {
    /// The bindings so far.
    pub closed spec fn bindings_spec(&self) -> Seq<LayoutBinding> {
        self.bindings@
    }

    /// The set layout's creation flags.
    pub closed spec fn flags_spec(&self) -> u32 {
        self.flags
    }

    /// The stages that see the bindings.
    pub closed spec fn stage_spec(&self) -> u32 {
        self.stage
    }

    /// The device.
    pub closed spec fn device_spec(&self) -> Device {
        self.device
    }

    /// The entry point's name.
    pub closed spec fn entry_spec(&self) -> Seq<char> {
        self.entry@
    }

    /// A builder for a shader of `stage` on `device`: no bindings, no flags, `main` as entry
    /// point.
    pub fn new(device: Device, stage: u32) -> (b: Self)
        ensures
            b.bindings_spec().len() == 0,
            b.flags_spec() == 0,
            b.stage_spec() == stage,
            b.device_spec() == device,
            b.entry_spec() == "main"@,
    {
        Builder { bindings: Vec::new(), flags: 0, stage, device, entry: "main".to_string() }
    }

    /// Sets the entry point's name.
    pub fn entry(self, entry: String) -> (b: Self)
        ensures
            b.entry_spec() == entry@,
            b.bindings_spec() == self.bindings_spec(),
            b.flags_spec() == self.flags_spec(),
            b.stage_spec() == self.stage_spec(),
            b.device_spec() == self.device_spec(),
    {
        Builder { entry, ..self }
    }

    /// Adds a binding of `count` descriptors of type `ty`, numbered after the others and seen
    /// by the builder's stages.
    pub fn binding(self, ty: DescriptorType, count: u32) -> (b: Self)
        requires
            self.bindings_spec().len() <= u32::MAX,
        ensures
            b.bindings_spec() == self.bindings_spec().push(LayoutBinding {
                binding: self.bindings_spec().len() as u32,
                ty: descriptor_type_code(ty),
                count,
                stages: self.stage_spec(),
            }),
            b.flags_spec() == self.flags_spec(),
            b.stage_spec() == self.stage_spec(),
            b.device_spec() == self.device_spec(),
            b.entry_spec() == self.entry_spec(),
    {
        let mut this = self;
        let number = this.bindings.len() as u32;
        let code = ty.raw();
        this.bindings.push(LayoutBinding { binding: number, ty: code, count, stages: this.stage });
        this
    }

    /// Sets the set layout's creation flags.
    pub fn flags(self, flags: u32) -> (b: Self)
        ensures
            b.flags_spec() == flags,
            b.bindings_spec() == self.bindings_spec(),
            b.stage_spec() == self.stage_spec(),
            b.device_spec() == self.device_spec(),
            b.entry_spec() == self.entry_spec(),
    {
        Builder { flags, ..self }
    }

    /// The bindings, in order.
    pub fn bindings(&self) -> (r: &Vec<LayoutBinding>)
        ensures
            r@ == self.bindings_spec(),
    {
        &self.bindings
    }

    /// The descriptor-set layout that creating one answered: the result code and the handle
    /// written; a null handle is an unknown error.
    pub fn layout_created(code: i32, handle: u64) -> (r: Result<u64, Error>)
        ensures
            code != SUCCESS ==> r == Err::<u64, Error>(Error::Vulkan(code)),
            code == SUCCESS && handle == 0 ==> r == Err::<u64, Error>(Error::Vulkan(ERROR_UNKNOWN)),
            code == SUCCESS && handle != 0 ==> r == Ok::<u64, Error>(handle),
    {
        tri(code)?;
        if handle != 0 {
            Ok(handle)
        } else {
            Err(Error::Vulkan(ERROR_UNKNOWN))
        }
    }

    /// The shader made of the set layout `layout` and what creating its module answered. A
    /// failed module (a null handle is an initialization failure) gives the error and the
    /// layout to destroy.
    pub fn module_created(self, layout: u64, code: i32, handle: u64) -> (r: Result<Shader, (Error, Release)>)
        requires
            layout != 0,
        ensures
            code != SUCCESS ==> r == Err::<Shader, (Error, Release)>((Error::Vulkan(code), Release::DescriptorSetLayout(layout))),
            code == SUCCESS && handle == 0 ==> r == Err::<Shader, (Error, Release)>(
                (Error::Vulkan(ERROR_INITIALIZATION_FAILED), Release::DescriptorSetLayout(layout))),
            code == SUCCESS && handle != 0 ==> r is Ok
                && r->Ok_0.module_spec() == handle
                && r->Ok_0.layout_spec() == layout
                && r->Ok_0.device_spec() == self.device_spec(),
    {
        if code != SUCCESS {
            return Err((Error::Vulkan(code), Release::DescriptorSetLayout(layout)));
        }
        if handle == 0 {
            return Err((Error::Vulkan(ERROR_INITIALIZATION_FAILED), Release::DescriptorSetLayout(layout)));
        }
        Ok(Shader { module: handle, layout, device: self.device })
    }
}

} // verus!
