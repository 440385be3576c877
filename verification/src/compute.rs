use vstd::prelude::*;
use crate::error::Error;
use crate::memory::{Bound, start_index, end_index};
use crate::pipeline::Pipeline;
use crate::shader::SHADER_STAGE_COMPUTE;

verus! {

/// A command recorded for a compute dispatch.
#[derive(Clone, Debug)]
pub enum ComputeOp {
    /// Binds the pipeline `pipeline` at the compute bind point.
    BindPipeline { pipeline: u64 },
    /// Binds the descriptor sets `sets`, from number `first_set` on, with the layout `layout`.
    BindDescriptorSets { layout: u64, first_set: u32, sets: Vec<u64> },
    /// Sets `size` bytes of push constants, from offset 0, seen by the stages `stages`.
    PushConstants { layout: u64, stages: u32, offset: u32, size: u32 },
    /// Runs `x` by `y` by `z` workgroups.
    Dispatch { x: u32, y: u32, z: u32 },
}

/// A compute dispatch being recorded on a command buffer for a pipeline: the commands so far.
pub struct ComputeCommand {
    buffer: u64,
    layout: u64,
    ops: Vec<ComputeOp>,
}

impl ComputeCommand {
    /// The command buffer's handle.
    pub closed spec fn buffer_spec(&self) -> u64 {
        self.buffer
    }

    /// The layout of the pipeline the commands run.
    pub closed spec fn layout_spec(&self) -> u64 {
        self.layout
    }

    /// The commands recorded so far.
    pub closed spec fn ops_spec(&self) -> Seq<ComputeOp> {
        self.ops@
    }

    /// Starts recording on the command buffer `buffer`: binds `pipeline`, then the range of
    /// its descriptor sets that `start` and `end` select (all of them without bounds).
    pub fn new(buffer: u64, pipeline: &Pipeline, start: Bound<usize>, end: Bound<usize>) -> (r: Result<Self, Error>)
        requires
            start_index(start) <= end_index(end, pipeline.sets_spec().ids().len() as int),
            end_index(end, pipeline.sets_spec().ids().len() as int) <= pipeline.sets_spec().ids().len(),
            end_index(end, pipeline.sets_spec().ids().len() as int) <= u32::MAX,
        ensures
            r is Ok,
            r->Ok_0.buffer_spec() == buffer,
            r->Ok_0.layout_spec() == pipeline.layout_spec(),
            r->Ok_0.ops_spec().len() == 2,
            r->Ok_0.ops_spec()[0] matches ComputeOp::BindPipeline { pipeline: p } && p == pipeline.id_spec(),
            ({
                let from = start_index(start);
                let to = end_index(end, pipeline.sets_spec().ids().len() as int);
                r->Ok_0.ops_spec()[1] matches ComputeOp::BindDescriptorSets { layout, first_set, sets }
                    && layout == pipeline.layout_spec()
                    && first_set == from
                    && sets@ == pipeline.sets_spec().ids().subrange(from, to)
            }),
    {
        let mut ops: Vec<ComputeOp> = Vec::new();
        ops.push(ComputeOp::BindPipeline { pipeline: pipeline.id() });
        let len = pipeline.sets().len();
        let from: usize = match start {
            Bound::Excluded(x) => x + 1,
            Bound::Included(x) => x,
            Bound::Unbounded => 0,
        };
        let to: usize = match end {
            Bound::Excluded(x) => x,
            Bound::Included(x) => x + 1,
            Bound::Unbounded => len,
        };
        let sets = pipeline.sets().ids_in(from, to);
        let layout = pipeline.layout();
        ops.push(ComputeOp::BindDescriptorSets { layout, first_set: from as u32, sets });
        Ok(ComputeCommand { buffer, layout, ops })
    }

    /// Records setting the push constants to a value of `size` bytes, seen by the compute
    /// stage.
    pub fn push_contant(self, size: usize) -> (r: Self)
        requires
            size <= u32::MAX,
        ensures
            r.buffer_spec() == self.buffer_spec(),
            r.layout_spec() == self.layout_spec(),
            r.ops_spec().len() == self.ops_spec().len() + 1,
            r.ops_spec().drop_last() == self.ops_spec(),
            r.ops_spec().last() matches ComputeOp::PushConstants { layout, stages, offset, size: s }
                && layout == self.layout_spec() && stages == SHADER_STAGE_COMPUTE && offset == 0 && s == size,
    {
        let ghost old_ops = self.ops@;
        let mut this = self;
        let layout = this.layout;
        this.ops.push(ComputeOp::PushConstants { layout, stages: SHADER_STAGE_COMPUTE, offset: 0, size: size as u32 });
        proof {
            assert(this.ops@.drop_last() == old_ops);
        }
        this
    }

    /// Records running `x` by `y` by `z` workgroups; the command buffer is then ready to be
    /// submitted.
    pub fn dispatch(self, x: u32, y: u32, z: u32) -> (r: Self)
        ensures
            r.buffer_spec() == self.buffer_spec(),
            r.layout_spec() == self.layout_spec(),
            r.ops_spec() == self.ops_spec().push(ComputeOp::Dispatch { x, y, z }),
    {
        let mut this = self;
        this.ops.push(ComputeOp::Dispatch { x, y, z });
        this
    }

    /// The command buffer's handle.
    pub fn buffer(&self) -> (r: u64)
        ensures
            r == self.buffer_spec(),
    {
        self.buffer
    }

    /// The commands recorded so far, in order.
    pub fn ops(&self) -> (r: &Vec<ComputeOp>)
        ensures
            r@ == self.ops_spec(),
    {
        &self.ops
    }
}

} // verus!
