use vstd::prelude::*;
use crate::device::Device;
use crate::descriptor::{DescriptorPool, DescriptorSets, DescriptorType, PoolSize, descriptor_type_code};
use crate::shader::{LayoutBinding, SHADER_STAGE_COMPUTE};
use crate::error::{Error, SUCCESS, ERROR_UNKNOWN, ERROR_INITIALIZATION_FAILED};

verus! {

/// How many of the bindings hold descriptors of the type with code `ty`.
pub open spec fn bindings_of_type(bs: Seq<LayoutBinding>, ty: i32) -> nat
    decreases bs.len(),
{
    if bs.len() == 0 {
        0
    } else {
        bindings_of_type(bs.drop_last(), ty) + if bs.last().ty == ty { 1nat } else { 0nat }
    }
}

/// The room the pool sizes give, in total, to descriptors of the type with code `ty`.
pub open spec fn pool_room(ps: Seq<PoolSize>, ty: i32) -> nat
    decreases ps.len(),
{
    if ps.len() == 0 {
        0
    } else {
        pool_room(ps.drop_last(), ty) + if ps.last().ty == ty { ps.last().count as nat } else { 0nat }
    }
}

/// Each descriptor type occurs in at most one pool size.
pub open spec fn types_distinct(ps: Seq<PoolSize>) -> bool {
    forall|i: int, j: int| 0 <= i < j < ps.len() ==> #[trigger] ps[i].ty != #[trigger] ps[j].ty
}

/// The pool sizes give each descriptor type room for one descriptor per binding of that type,
/// each type in one pool size.
pub open spec fn pool_sizes_match(bs: Seq<LayoutBinding>, ps: Seq<PoolSize>) -> bool {
    &&& types_distinct(ps)
    &&& forall|ty: i32| #[trigger] pool_room(ps, ty) == bindings_of_type(bs, ty)
}

/// The bindings are numbered in order from zero, each seen by `stages`.
pub open spec fn bindings_numbered(bs: Seq<LayoutBinding>, stages: u32) -> bool {
    forall|k: int| 0 <= k < bs.len() ==> #[trigger] bs[k].binding == k && bs[k].stages == stages
}

proof fn lemma_bindings_of_type_bounded(bs: Seq<LayoutBinding>, ty: i32)
    ensures
        bindings_of_type(bs, ty) <= bs.len(),
    decreases bs.len(),
{
    if bs.len() > 0 {
        lemma_bindings_of_type_bounded(bs.drop_last(), ty);
    }
}

proof fn lemma_pool_room_absent(ps: Seq<PoolSize>, ty: i32)
    requires
        forall|i: int| 0 <= i < ps.len() ==> #[trigger] ps[i].ty != ty,
    ensures
        pool_room(ps, ty) == 0,
    decreases ps.len(),
{
    if ps.len() > 0 {
        lemma_pool_room_absent(ps.drop_last(), ty);
    }
}

proof fn lemma_pool_room_single(ps: Seq<PoolSize>, i: int)
    requires
        0 <= i < ps.len(),
        types_distinct(ps),
    ensures
        pool_room(ps, ps[i].ty) == ps[i].count,
    decreases ps.len(),
{
    let last = ps.len() - 1;
    if i == last {
        assert forall|j: int| 0 <= j < ps.drop_last().len() implies #[trigger] ps.drop_last()[j].ty != ps[i].ty by {
            assert(ps[j].ty != ps[last].ty);
        }
        lemma_pool_room_absent(ps.drop_last(), ps[i].ty);
    } else {
        assert(ps[i].ty != ps[last].ty);
        assert(ps.drop_last()[i] == ps[i]);
        lemma_pool_room_single(ps.drop_last(), i);
    }
}

proof fn lemma_pool_room_bump(ps: Seq<PoolSize>, i: int, ty: i32)
    requires
        0 <= i < ps.len(),
        ps[i].count < u32::MAX,
    ensures
        pool_room(ps.update(i, PoolSize { ty: ps[i].ty, count: (ps[i].count + 1) as u32 }), ty)
            == pool_room(ps, ty) + if ps[i].ty == ty { 1nat } else { 0nat },
    decreases ps.len(),
{
    let qs = ps.update(i, PoolSize { ty: ps[i].ty, count: (ps[i].count + 1) as u32 });
    let last = ps.len() - 1;
    if i == last {
        assert(qs.drop_last() == ps.drop_last());
    } else {
        assert(qs.drop_last() == ps.drop_last().update(i, PoolSize { ty: ps[i].ty, count: (ps[i].count + 1) as u32 }));
        assert(ps.drop_last()[i] == ps[i]);
        lemma_pool_room_bump(ps.drop_last(), i, ty);
    }
}

/// What a compute pipeline is to be built with: its flags, the bindings of its one descriptor
/// set, the room its descriptor pool makes for them, its device and the name of its shader's
/// entry point.
pub struct ComputeBuilder {
    pipe_flags: u32,
    pipe_layout_flags: u32,
    cache_flags: Option<u32>,
    layout_flags: u32,
    bindings: Vec<LayoutBinding>,
    pool_sizes: Vec<PoolSize>,
    device: Device,
    entry: String,
}

impl ComputeBuilder {
    /// The pipeline's creation flags.
    pub closed spec fn pipe_flags_spec(&self) -> u32 {
        self.pipe_flags
    }

    /// The pipeline layout's creation flags.
    pub closed spec fn pipe_layout_flags_spec(&self) -> u32 {
        self.pipe_layout_flags
    }

    /// The pipeline cache's creation flags, when a cache is to be made.
    pub closed spec fn cache_flags_spec(&self) -> Option<u32> {
        self.cache_flags
    }

    /// The descriptor-set layout's creation flags.
    pub closed spec fn layout_flags_spec(&self) -> u32 {
        self.layout_flags
    }

    /// The bindings so far.
    pub closed spec fn bindings_spec(&self) -> Seq<LayoutBinding> {
        self.bindings@
    }

    /// The descriptor pool's sizes so far.
    pub closed spec fn pool_sizes_spec(&self) -> Seq<PoolSize> {
        self.pool_sizes@
    }

    /// The device.
    pub closed spec fn device_spec(&self) -> Device {
        self.device
    }

    /// The shader's entry point.
    pub closed spec fn entry_spec(&self) -> Seq<char> {
        self.entry@
    }

    /// The bindings are numbered in order and seen by the compute stage, and the pool has
    /// room for one descriptor per binding of each type.
    pub open spec fn wf(&self) -> bool {
        &&& bindings_numbered(self.bindings_spec(), SHADER_STAGE_COMPUTE)
        &&& pool_sizes_match(self.bindings_spec(), self.pool_sizes_spec())
    }

    /// A builder for `device`: no flags, no cache, no bindings, and `main` as entry point.
    pub fn new(device: Device) -> (b: Self)
        ensures
            b.wf(),
            b.device_spec() == device,
            b.pipe_flags_spec() == 0,
            b.pipe_layout_flags_spec() == 0,
            b.layout_flags_spec() == 0,
            b.cache_flags_spec() is None,
            b.bindings_spec().len() == 0,
            b.pool_sizes_spec().len() == 0,
            b.entry_spec() == "main"@,
    {
        let b = ComputeBuilder {
            pipe_flags: 0,
            pipe_layout_flags: 0,
            cache_flags: None,
            layout_flags: 0,
            bindings: Vec::new(),
            pool_sizes: Vec::new(),
            device,
            entry: "main".to_string(),
        };
        proof {
            assert forall|ty: i32| #[trigger] pool_room(b.pool_sizes@, ty) == bindings_of_type(b.bindings@, ty) by {}
        }
        b
    }

    /// Sets the shader's entry point.
    pub fn entry(self, entry: String) -> (b: Self)
        requires
            self.wf(),
        ensures
            b.wf(),
            b.entry_spec() == entry@,
            b.bindings_spec() == self.bindings_spec(),
            b.pool_sizes_spec() == self.pool_sizes_spec(),
            b.device_spec() == self.device_spec(),
            b.pipe_flags_spec() == self.pipe_flags_spec(),
            b.pipe_layout_flags_spec() == self.pipe_layout_flags_spec(),
            b.layout_flags_spec() == self.layout_flags_spec(),
            b.cache_flags_spec() == self.cache_flags_spec(),
    {
        ComputeBuilder { entry, ..self }
    }

    /// Adds a binding of `len` descriptors of type `ty`, numbered after the others and seen by
    /// the compute stage, and makes room in the pool for one more descriptor of that type.
    pub fn binding(self, ty: DescriptorType, len: u32) -> (b: Self)
        requires
            self.wf(),
            self.bindings_spec().len() < u32::MAX,
        ensures
            b.wf(),
            b.bindings_spec() == self.bindings_spec().push(LayoutBinding {
                binding: self.bindings_spec().len() as u32,
                ty: descriptor_type_code(ty),
                count: len,
                stages: SHADER_STAGE_COMPUTE,
            }),
            forall|t: i32| #[trigger] pool_room(b.pool_sizes_spec(), t)
                == pool_room(self.pool_sizes_spec(), t) + if t == descriptor_type_code(ty) { 1nat } else { 0nat },
            b.entry_spec() == self.entry_spec(),
            b.device_spec() == self.device_spec(),
            b.pipe_flags_spec() == self.pipe_flags_spec(),
            b.pipe_layout_flags_spec() == self.pipe_layout_flags_spec(),
            b.layout_flags_spec() == self.layout_flags_spec(),
            b.cache_flags_spec() == self.cache_flags_spec(),
    {
        let mut this = self;
        let code = ty.raw();
        let ghost old_sizes = this.pool_sizes@;
        let ghost old_bindings = this.bindings@;
        let mut i: usize = 0;
        let mut found = false;
        while i < this.pool_sizes.len()
            invariant_except_break
                !found,
                forall|j: int| 0 <= j < i ==> #[trigger] old_sizes[j].ty != code,
            invariant
                this.pool_sizes@ == old_sizes,
                i <= old_sizes.len(),
            ensures
                found ==> i < old_sizes.len() && old_sizes[i as int].ty == code,
                !found ==> forall|j: int| 0 <= j < old_sizes.len() ==> #[trigger] old_sizes[j].ty != code,
            decreases old_sizes.len() - i,
        {
            if this.pool_sizes[i].ty == code {
                found = true;
                break;
            }
            i = i + 1;
        }
        if found {
            proof {
                lemma_pool_room_single(old_sizes, i as int);
                lemma_bindings_of_type_bounded(old_bindings, code);
            }
            let size = this.pool_sizes[i];
            this.pool_sizes.set(i, PoolSize { ty: size.ty, count: size.count + 1 });
            proof {
                assert forall|t: i32| #[trigger] pool_room(this.pool_sizes@, t)
                    == pool_room(old_sizes, t) + if t == code { 1nat } else { 0nat } by {
                    lemma_pool_room_bump(old_sizes, i as int, t);
                }
                assert forall|a: int, c: int| 0 <= a < c < this.pool_sizes@.len()
                    implies #[trigger] this.pool_sizes@[a].ty != #[trigger] this.pool_sizes@[c].ty by {
                    assert(old_sizes[a].ty != old_sizes[c].ty);
                }
            }
        } else {
            proof {
                lemma_pool_room_absent(old_sizes, code);
                lemma_bindings_of_type_bounded(old_bindings, code);
            }
            this.pool_sizes.push(PoolSize { ty: code, count: 1 });
            proof {
                assert(this.pool_sizes@.drop_last() == old_sizes);
                assert forall|a: int, c: int| 0 <= a < c < this.pool_sizes@.len()
                    implies #[trigger] this.pool_sizes@[a].ty != #[trigger] this.pool_sizes@[c].ty by {
                    if c < old_sizes.len() {
                        assert(old_sizes[a].ty != old_sizes[c].ty);
                    } else {
                        assert(old_sizes[a].ty != code);
                    }
                }
            }
        }
        let number = this.bindings.len() as u32;
        this.bindings.push(LayoutBinding { binding: number, ty: code, count: len, stages: SHADER_STAGE_COMPUTE });
        proof {
            assert(this.bindings@.drop_last() == old_bindings);
            assert forall|t: i32| #[trigger] pool_room(this.pool_sizes@, t) == bindings_of_type(this.bindings@, t) by {
                assert(pool_room(old_sizes, t) == bindings_of_type(old_bindings, t));
            }
        }
        this
    }

    /// Sets the pipeline's creation flags.
    pub fn flags(self, flags: u32) -> (b: Self)
        requires
            self.wf(),
        ensures
            b.wf(),
            b.pipe_flags_spec() == flags,
            b.pipe_layout_flags_spec() == self.pipe_layout_flags_spec(),
            b.cache_flags_spec() == self.cache_flags_spec(),
            b.layout_flags_spec() == self.layout_flags_spec(),
            b.bindings_spec() == self.bindings_spec(),
            b.pool_sizes_spec() == self.pool_sizes_spec(),
            b.entry_spec() == self.entry_spec(),
            b.device_spec() == self.device_spec(),
    {
        ComputeBuilder { pipe_flags: flags, ..self }
    }

    /// Sets the pipeline layout's creation flags.
    pub fn layout_flags(self, flags: u32) -> (b: Self)
        requires
            self.wf(),
        ensures
            b.wf(),
            b.pipe_layout_flags_spec() == flags,
            b.pipe_flags_spec() == self.pipe_flags_spec(),
            b.cache_flags_spec() == self.cache_flags_spec(),
            b.layout_flags_spec() == self.layout_flags_spec(),
            b.bindings_spec() == self.bindings_spec(),
            b.pool_sizes_spec() == self.pool_sizes_spec(),
            b.entry_spec() == self.entry_spec(),
            b.device_spec() == self.device_spec(),
    {
        ComputeBuilder { pipe_layout_flags: flags, ..self }
    }

    /// Asks for a pipeline cache made with `flags`.
    pub fn cache_flags(self, flags: u32) -> (b: Self)
        requires
            self.wf(),
        ensures
            b.wf(),
            b.cache_flags_spec() == Some(flags),
            b.pipe_flags_spec() == self.pipe_flags_spec(),
            b.pipe_layout_flags_spec() == self.pipe_layout_flags_spec(),
            b.layout_flags_spec() == self.layout_flags_spec(),
            b.bindings_spec() == self.bindings_spec(),
            b.pool_sizes_spec() == self.pool_sizes_spec(),
            b.entry_spec() == self.entry_spec(),
            b.device_spec() == self.device_spec(),
    {
        ComputeBuilder { cache_flags: Some(flags), ..self }
    }

    /// The bindings, in order.
    pub fn bindings(&self) -> (r: &Vec<LayoutBinding>)
        ensures
            r@ == self.bindings_spec(),
    {
        &self.bindings
    }

    /// The descriptor pool's sizes.
    pub fn pool_sizes(&self) -> (r: &Vec<PoolSize>)
        ensures
            r@ == self.pool_sizes_spec(),
    {
        &self.pool_sizes
    }

    /// The device.
    pub fn device(&self) -> (r: &Device)
        ensures
            *r == self.device_spec(),
    {
        &self.device
    }

    /// The shader's entry point.
    pub fn entry_name(&self) -> (r: &String)
        ensures
            r@ == self.entry_spec(),
    {
        &self.entry
    }
}

/// A driver object the build leaves for its caller to destroy, in the order given.
#[derive(Clone, Copy, PartialEq, Eq, Structural, Debug, Hash)]
pub enum Release {
    DescriptorSetLayout(u64),
    ShaderModule(u64),
    PipelineCache(u64),
    PipelineLayout(u64),
    Pipeline(u64),
    DescriptorPool(u64),
}

/// The driver call a pipeline build needs next. The set layout is made from the builder's
/// bindings and layout flags, the shader module from the caller's SPIR-V words, and the
/// descriptor pool, for one set and without flags, from the builder's pool sizes.
#[derive(Clone, Copy, PartialEq, Eq, Structural, Debug, Hash)]
pub enum BuildCall {
    CreateDescriptorSetLayout,
    CreateShaderModule,
    CreatePipelineCache { flags: u32 },
    CreatePipelineLayout { set_layout: u64, flags: u32 },
    CreateComputePipeline { cache: u64, layout: u64, module: u64, flags: u32 },
    CreateDescriptorPool,
    AllocateDescriptorSet { pool: u64, set_layout: u64 },
}

/// The handles of a built compute pipeline: the pipeline, its layout, its descriptor pool and
/// the one descriptor set taken from it.
#[derive(Clone, Copy, PartialEq, Eq, Structural, Debug, Hash)]
pub struct BuiltPipeline {
    pub pipeline: u64,
    pub layout: u64,
    pub pool: u64,
    pub set: u64,
}

/// What a build step asks: another driver call, or the end of the build with its outcome and
/// the objects to destroy.
pub enum BuildStep {
    Call(BuildCall),
    Done { result: Result<BuiltPipeline, Error>, releases: Vec<Release> },
}

/// The call a build is waiting on the answer of.
#[derive(Clone, Copy, PartialEq, Eq, Structural, Debug, Hash)]
pub enum BuildStage {
    SetLayout,
    Module,
    Cache,
    PipelineLayout,
    Pipeline,
    Pool,
    DescriptorSet,
    Done,
}

/// The handles a build has obtained so far.
#[derive(Clone, Copy, PartialEq, Eq, Structural, Debug, Hash)]
pub struct BuildHandles {
    pub set_layout: u64,
    pub module: u64,
    pub cache: Option<u64>,
    pub layout: u64,
    pub pipeline: u64,
    pub pool: u64,
}

/// What a build holds and gives up when it ends: the cache, if one was made, then the
/// shader module and its set layout.
pub open spec fn held_releases(h: BuildHandles) -> Seq<Release> {
    let cache = match h.cache {
        Some(c) => seq![Release::PipelineCache(c)],
        None => Seq::<Release>::empty(),
    };
    cache + seq![Release::ShaderModule(h.module), Release::DescriptorSetLayout(h.set_layout)]
}

/// What a build destroys when the call of `stage` fails: the object it undoes at once, then
/// what it holds. A failed pipeline-layout step leaves nothing extra; a failed pool leaves the
/// pipeline layout and a failed set the pipeline and its layout undestroyed.
pub open spec fn failure_releases(stage: BuildStage, h: BuildHandles) -> Seq<Release> {
    match stage {
        BuildStage::SetLayout => Seq::<Release>::empty(),
        BuildStage::Module => seq![Release::DescriptorSetLayout(h.set_layout)],
        BuildStage::Pipeline => seq![Release::PipelineLayout(h.layout)] + held_releases(h),
        BuildStage::Pool => seq![Release::Pipeline(h.pipeline)] + held_releases(h),
        BuildStage::DescriptorSet => seq![Release::DescriptorPool(h.pool)] + held_releases(h),
        _ => held_releases(h),
    }
}

/// What a failed build destroys is what it made and still owns, and only that.
///
/// Failing at any step past the set layout destroys the set layout; past the shader module,
/// the module; past the cache step, the cache when one was made. The object made by the call
/// just before the failing one is destroyed at once: the pipeline layout when the pipeline
/// fails, the pipeline when the pool fails, the pool when the descriptor set fails (the pool
/// is made for the set alone), first of all. The set layout, which the others were made with,
/// is destroyed last. Nothing that was not made is destroyed.
pub proof fn lemma_failure_releases_what_was_made(stage: BuildStage, h: BuildHandles)
    requires
        stage != BuildStage::Done,
    ensures
        stage != BuildStage::SetLayout
            ==> failure_releases(stage, h).contains(Release::DescriptorSetLayout(h.set_layout)),
        stage != BuildStage::SetLayout && stage != BuildStage::Module
            ==> failure_releases(stage, h).contains(Release::ShaderModule(h.module)),
        stage != BuildStage::SetLayout && stage != BuildStage::Module && h.cache is Some
            ==> failure_releases(stage, h).contains(Release::PipelineCache(h.cache->Some_0)),
        stage == BuildStage::Pipeline ==> failure_releases(stage, h).contains(Release::PipelineLayout(h.layout)),
        stage == BuildStage::Pool ==> failure_releases(stage, h).contains(Release::Pipeline(h.pipeline)),
        stage == BuildStage::DescriptorSet ==> failure_releases(stage, h).contains(Release::DescriptorPool(h.pool)),
        stage == BuildStage::SetLayout ==> failure_releases(stage, h).len() == 0,
        stage != BuildStage::SetLayout
            ==> failure_releases(stage, h).last() == Release::DescriptorSetLayout(h.set_layout),
        stage == BuildStage::Pipeline ==> failure_releases(stage, h)[0] == Release::PipelineLayout(h.layout),
        stage == BuildStage::Pool ==> failure_releases(stage, h)[0] == Release::Pipeline(h.pipeline),
        stage == BuildStage::DescriptorSet ==> failure_releases(stage, h)[0] == Release::DescriptorPool(h.pool),
        forall|i: int| 0 <= i < failure_releases(stage, h).len() ==> ({
            let r = #[trigger] failure_releases(stage, h)[i];
            ||| r == Release::DescriptorSetLayout(h.set_layout)
            ||| r == Release::ShaderModule(h.module) && stage != BuildStage::Module
            ||| h.cache matches Some(c) && r == Release::PipelineCache(c)
            ||| r == Release::PipelineLayout(h.layout) && stage == BuildStage::Pipeline
            ||| r == Release::Pipeline(h.pipeline) && stage == BuildStage::Pool
            ||| r == Release::DescriptorPool(h.pool) && stage == BuildStage::DescriptorSet
        }),
{
    let held = held_releases(h);
    let cache = match h.cache {
        Some(c) => seq![Release::PipelineCache(c)],
        None => Seq::<Release>::empty(),
    };
    let tail = seq![Release::ShaderModule(h.module), Release::DescriptorSetLayout(h.set_layout)];
    assert(held == cache + tail);
    let k = cache.len() as int;
    assert(held[k] == Release::ShaderModule(h.module));
    assert(held[k + 1] == Release::DescriptorSetLayout(h.set_layout));
    if let Some(c) = h.cache {
        assert(held[0] == Release::PipelineCache(c));
    }
    match stage {
        BuildStage::Pipeline | BuildStage::Pool | BuildStage::DescriptorSet => {
            let first = failure_releases(stage, h)[0];
            assert(failure_releases(stage, h) == seq![first] + held);
            assert(failure_releases(stage, h)[k + 1] == Release::ShaderModule(h.module));
            assert(failure_releases(stage, h)[k + 2] == Release::DescriptorSetLayout(h.set_layout));
            if let Some(c) = h.cache {
                assert(failure_releases(stage, h)[1] == Release::PipelineCache(c));
            }
            assert forall|i: int| 0 < i < failure_releases(stage, h).len() implies
                failure_releases(stage, h)[i] == held[i - 1] by {}
        },
        _ => {},
    }
}

/// The error of a call that succeeded with a null handle: initialization failed for the
/// shader module, unknown otherwise.
pub open spec fn null_handle_error(stage: BuildStage) -> i32 {
    if stage == BuildStage::Module {
        ERROR_INITIALIZATION_FAILED
    } else {
        ERROR_UNKNOWN
    }
}

/// The handles obtained before `stage` are non-null.
pub open spec fn handles_valid(stage: BuildStage, h: BuildHandles) -> bool {
    let rank = match stage {
        BuildStage::SetLayout => 0int,
        BuildStage::Module => 1,
        BuildStage::Cache => 2,
        BuildStage::PipelineLayout => 3,
        BuildStage::Pipeline => 4,
        BuildStage::Pool => 5,
        BuildStage::DescriptorSet => 6,
        BuildStage::Done => -1,
    };
    &&& rank >= 1 ==> h.set_layout != 0
    &&& rank >= 2 ==> h.module != 0
    &&& (h.cache matches Some(c) ==> c != 0)
    &&& rank >= 4 ==> h.layout != 0
    &&& rank >= 5 ==> h.pipeline != 0
    &&& rank >= 6 ==> h.pool != 0
}

/// A compute-pipeline build under way: the builder, the call it waits on and the handles so
/// far.
pub struct ComputeBuild {
    builder: ComputeBuilder,
    stage: BuildStage,
    handles: BuildHandles,
}

impl ComputeBuilder {
    /// Starts building the pipeline with nothing made yet: the first call makes the
    /// descriptor-set layout.
    pub fn build(self) -> (r: (ComputeBuild, BuildCall))
        requires
            self.wf(),
        ensures
            r.0.builder_spec() == self,
            r.0.stage_spec() == BuildStage::SetLayout,
            r.0.handles_spec() == (BuildHandles { set_layout: 0, module: 0, cache: None, layout: 0, pipeline: 0, pool: 0 }),
            r.1 == BuildCall::CreateDescriptorSetLayout,
    {
        let handles = BuildHandles { set_layout: 0, module: 0, cache: None, layout: 0, pipeline: 0, pool: 0 };
        (ComputeBuild { builder: self, stage: BuildStage::SetLayout, handles }, BuildCall::CreateDescriptorSetLayout)
    }
}

impl ComputeBuild {
    #[verifier::type_invariant]
    spec fn obtained_not_null(self) -> bool {
        handles_valid(self.stage, self.handles)
    }

    /// The builder the pipeline is built from.
    pub closed spec fn builder_spec(&self) -> ComputeBuilder {
        self.builder
    }

    /// The call the build waits on.
    pub closed spec fn stage_spec(&self) -> BuildStage {
        self.stage
    }

    /// The handles so far.
    pub closed spec fn handles_spec(&self) -> BuildHandles {
        self.handles
    }

    /// The builder the pipeline is built from.
    pub fn builder(&self) -> (r: &ComputeBuilder)
        ensures
            *r == self.builder_spec(),
    {
        &self.builder
    }

    /// The call the build waits on.
    pub fn stage(&self) -> (r: BuildStage)
        ensures
            r == self.stage_spec(),
    {
        self.stage
    }

    fn held(&self) -> (r: Vec<Release>)
        ensures
            r@ == held_releases(self.handles),
    {
        let mut r: Vec<Release> = Vec::new();
        match self.handles.cache {
            Some(c) => r.push(Release::PipelineCache(c)),
            None => {},
        }
        r.push(Release::ShaderModule(self.handles.module));
        r.push(Release::DescriptorSetLayout(self.handles.set_layout));
        proof {
            assert(r@ == held_releases(self.handles));
        }
        r
    }

    fn fail(&mut self, code: i32, handle: u64) -> (r: BuildStep)
        requires
            old(self).stage != BuildStage::Done,
            code != SUCCESS || handle == 0,
        ensures
            r matches BuildStep::Done { result, releases }
                && result == Err::<BuiltPipeline, Error>(Error::Vulkan(if code != SUCCESS { code } else { null_handle_error(old(self).stage) }))
                && releases@ == failure_releases(old(self).stage, old(self).handles),
            final(self).stage == BuildStage::Done,
            final(self).builder == old(self).builder,
            final(self).handles == old(self).handles,
    {
        proof {
            use_type_invariant(&*self);
        }
        let err = if code != SUCCESS {
            code
        } else if self.stage == BuildStage::Module {
            ERROR_INITIALIZATION_FAILED
        } else {
            ERROR_UNKNOWN
        };
        let releases = match self.stage {
            BuildStage::SetLayout => Vec::new(),
            BuildStage::Module => {
                let mut v: Vec<Release> = Vec::new();
                v.push(Release::DescriptorSetLayout(self.handles.set_layout));
                v
            },
            BuildStage::Pipeline => {
                let mut v: Vec<Release> = Vec::new();
                v.push(Release::PipelineLayout(self.handles.layout));
                let mut rest = self.held();
                v.append(&mut rest);
                v
            },
            BuildStage::Pool => {
                let mut v: Vec<Release> = Vec::new();
                v.push(Release::Pipeline(self.handles.pipeline));
                let mut rest = self.held();
                v.append(&mut rest);
                v
            },
            BuildStage::DescriptorSet => {
                let mut v: Vec<Release> = Vec::new();
                v.push(Release::DescriptorPool(self.handles.pool));
                let mut rest = self.held();
                v.append(&mut rest);
                v
            },
            _ => self.held(),
        };
        proof {
            assert(releases@ == failure_releases(self.stage, self.handles));
        }
        self.stage = BuildStage::Done;
        BuildStep::Done { result: Err(Error::Vulkan(err)), releases }
    }

    /// Takes the driver's answer to the call the build waits on, its result code and the
    /// handle it wrote, and says what comes next. A failed call, or a null handle, ends the
    /// build with its error and the objects to destroy; otherwise the handle is kept and the
    /// next call asked for, in the order: set layout, shader module, pipeline cache (when the
    /// builder asks for one), pipeline layout, pipeline, descriptor pool, descriptor set. The
    /// last answer ends the build with the pipeline, giving up the cache, the module and the
    /// set layout, which the pipeline no longer needs.
    pub fn step(&mut self, code: i32, handle: u64) -> (r: BuildStep)
        requires
            old(self).stage_spec() != BuildStage::Done,
        ensures
            final(self).builder_spec() == old(self).builder_spec(),
            r matches BuildStep::Done { result: Ok(p), .. } ==> p.pipeline != 0 && p.layout != 0 && p.pool != 0 && p.set != 0,
            ({
                let st = old(self).stage_spec();
                let h = old(self).handles_spec();
                let b = old(self).builder_spec();
                if code != SUCCESS || handle == 0 {
                    &&& r matches BuildStep::Done { result, releases }
                        && result == Err::<BuiltPipeline, Error>(Error::Vulkan(if code != SUCCESS { code } else { null_handle_error(st) }))
                        && releases@ == failure_releases(st, h)
                    &&& final(self).stage_spec() == BuildStage::Done
                } else {
                    match st {
                        BuildStage::SetLayout => {
                            &&& r == BuildStep::Call(BuildCall::CreateShaderModule)
                            &&& final(self).stage_spec() == BuildStage::Module
                            &&& final(self).handles_spec() == BuildHandles { set_layout: handle, ..h }
                        },
                        BuildStage::Module => {
                            &&& final(self).handles_spec() == BuildHandles { module: handle, ..h }
                            &&& match b.cache_flags_spec() {
                                Some(f) => r == BuildStep::Call(BuildCall::CreatePipelineCache { flags: f })
                                    && final(self).stage_spec() == BuildStage::Cache,
                                None => r == BuildStep::Call(BuildCall::CreatePipelineLayout { set_layout: h.set_layout, flags: b.pipe_layout_flags_spec() })
                                    && final(self).stage_spec() == BuildStage::PipelineLayout,
                            }
                        },
                        BuildStage::Cache => {
                            &&& r == BuildStep::Call(BuildCall::CreatePipelineLayout { set_layout: h.set_layout, flags: b.pipe_layout_flags_spec() })
                            &&& final(self).stage_spec() == BuildStage::PipelineLayout
                            &&& final(self).handles_spec() == BuildHandles { cache: Some(handle), ..h }
                        },
                        BuildStage::PipelineLayout => {
                            &&& r == BuildStep::Call(BuildCall::CreateComputePipeline {
                                cache: match h.cache { Some(c) => c, None => 0 },
                                layout: handle,
                                module: h.module,
                                flags: b.pipe_flags_spec(),
                            })
                            &&& final(self).stage_spec() == BuildStage::Pipeline
                            &&& final(self).handles_spec() == BuildHandles { layout: handle, ..h }
                        },
                        BuildStage::Pipeline => {
                            &&& r == BuildStep::Call(BuildCall::CreateDescriptorPool)
                            &&& final(self).stage_spec() == BuildStage::Pool
                            &&& final(self).handles_spec() == BuildHandles { pipeline: handle, ..h }
                        },
                        BuildStage::Pool => {
                            &&& r == BuildStep::Call(BuildCall::AllocateDescriptorSet { pool: handle, set_layout: h.set_layout })
                            &&& final(self).stage_spec() == BuildStage::DescriptorSet
                            &&& final(self).handles_spec() == BuildHandles { pool: handle, ..h }
                        },
                        _ => {
                            &&& r matches BuildStep::Done { result, releases }
                                && result == Ok::<BuiltPipeline, Error>(BuiltPipeline { pipeline: h.pipeline, layout: h.layout, pool: h.pool, set: handle })
                                && releases@ == held_releases(h)
                            &&& final(self).stage_spec() == BuildStage::Done
                        },
                    }
                }
            }),
    {
        proof {
            use_type_invariant(&*self);
        }
        if code != SUCCESS || handle == 0 {
            return self.fail(code, handle);
        }
        match self.stage {
            BuildStage::SetLayout => {
                self.handles.set_layout = handle;
                self.stage = BuildStage::Module;
                BuildStep::Call(BuildCall::CreateShaderModule)
            },
            BuildStage::Module => {
                self.handles.module = handle;
                match self.builder.cache_flags {
                    Some(f) => {
                        self.stage = BuildStage::Cache;
                        BuildStep::Call(BuildCall::CreatePipelineCache { flags: f })
                    },
                    None => {
                        self.stage = BuildStage::PipelineLayout;
                        BuildStep::Call(BuildCall::CreatePipelineLayout {
                            set_layout: self.handles.set_layout,
                            flags: self.builder.pipe_layout_flags,
                        })
                    },
                }
            },
            BuildStage::Cache => {
                self.handles.cache = Some(handle);
                self.stage = BuildStage::PipelineLayout;
                BuildStep::Call(BuildCall::CreatePipelineLayout {
                    set_layout: self.handles.set_layout,
                    flags: self.builder.pipe_layout_flags,
                })
            },
            BuildStage::PipelineLayout => {
                self.handles.layout = handle;
                self.stage = BuildStage::Pipeline;
                let cache = match self.handles.cache {
                    Some(c) => c,
                    None => 0,
                };
                BuildStep::Call(BuildCall::CreateComputePipeline {
                    cache,
                    layout: handle,
                    module: self.handles.module,
                    flags: self.builder.pipe_flags,
                })
            },
            BuildStage::Pipeline => {
                self.handles.pipeline = handle;
                self.stage = BuildStage::Pool;
                BuildStep::Call(BuildCall::CreateDescriptorPool)
            },
            BuildStage::Pool => {
                self.handles.pool = handle;
                self.stage = BuildStage::DescriptorSet;
                BuildStep::Call(BuildCall::AllocateDescriptorSet { pool: handle, set_layout: self.handles.set_layout })
            },
            _ => {
                let releases = self.held();
                self.stage = BuildStage::Done;
                BuildStep::Done {
                    result: Ok(BuiltPipeline {
                        pipeline: self.handles.pipeline,
                        layout: self.handles.layout,
                        pool: self.handles.pool,
                        set: handle,
                    }),
                    releases,
                }
            },
        }
    }
}

/// A compute pipeline: the driver's non-null handles for it and its layout, and the
/// descriptor sets it binds.
pub struct Pipeline {
    inner: u64,
    layout: u64,
    sets: DescriptorSets,
}

impl Pipeline {
    #[verifier::type_invariant]
    spec fn handles_not_null(self) -> bool {
        self.inner != 0 && self.layout != 0
    }

    /// The pipeline's handle.
    pub closed spec fn id_spec(&self) -> u64 {
        self.inner
    }

    /// The pipeline layout's handle.
    pub closed spec fn layout_spec(&self) -> u64 {
        self.layout
    }

    /// The descriptor sets.
    pub closed spec fn sets_spec(&self) -> &DescriptorSets {
        &self.sets
    }

    /// The pipeline a finished build gave, on `device`: its one descriptor set taken from its
    /// pool.
    pub fn new(built: BuiltPipeline, device: Device) -> (p: Self)
        requires
            built.pipeline != 0,
            built.layout != 0,
            built.pool != 0,
            built.set != 0,
        ensures
            p.id_spec() == built.pipeline,
            p.layout_spec() == built.layout,
            p.sets_spec().ids() == seq![built.set],
            p.sets_spec().pool_spec().id_spec() == built.pool,
            p.sets_spec().pool_spec().device_spec() == device,
    {
        let pool = DescriptorPool::new(SUCCESS, built.pool, device).unwrap();
        let sets = DescriptorSets::single(pool, built.set);
        Pipeline { inner: built.pipeline, layout: built.layout, sets }
    }

    /// The pipeline's handle; never zero.
    pub fn id(&self) -> (r: u64)
        ensures
            r == self.id_spec(),
            r != 0,
    {
        proof {
            use_type_invariant(self);
        }
        self.inner
    }

    /// The pipeline layout's handle; never zero.
    pub fn layout(&self) -> (r: u64)
        ensures
            r == self.layout_spec(),
            r != 0,
    {
        proof {
            use_type_invariant(self);
        }
        self.layout
    }

    /// The descriptor sets.
    pub fn sets(&self) -> (r: &DescriptorSets)
        ensures
            r == self.sets_spec(),
    {
        &self.sets
    }

    /// The descriptor pool the sets come from.
    pub fn pool(&self) -> (r: &DescriptorPool)
        ensures
            r == self.sets_spec().pool_spec(),
    {
        self.sets.pool()
    }

    /// The device.
    pub fn device(&self) -> (r: &Device)
        ensures
            *r == self.sets_spec().pool_spec().device_spec(),
    {
        self.sets.device()
    }
}

} // verus!
