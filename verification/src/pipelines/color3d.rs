//! The pipeline for coloured 3D geometry: one slot set, holding the
//! projection.

use vstd::prelude::*;
use crate::binding::{BoundGroup, GroupView, PipelineKind, PipelineLayout, Resource, ResourceKind};
use crate::pipelines::uniform::UniformDeviceAndDescriptor;

verus! {

/// The slot sets that the pipeline declares.
pub open spec fn color3d_slots() -> Seq<Seq<ResourceKind>> {
    seq![seq![ResourceKind::UniformBuffer]]
}

/// The bindings of the pipeline for coloured 3D geometry.
pub struct Color3DPipeline {
    pub pipeline: PipelineLayout,
    pub proj_uniform_device_buffer: Resource,
    pub proj_desc_set: BoundGroup,
}

impl Color3DPipeline {
    /// The layout that the pipeline declares.
    pub fn layout() -> (layout: PipelineLayout)
        ensures
            layout.pipeline == PipelineKind::Color3D,
            layout.declared() == color3d_slots(),
            layout.declared().len() == PipelineKind::Color3D.slot_sets(),
    {
        let layout = PipelineLayout {
            pipeline: PipelineKind::Color3D,
            sets: vec![vec![ResourceKind::UniformBuffer]],
        };
        assert(layout.declared() =~~= color3d_slots());
        layout
    }

    /// The pipeline with its projection bound: `proj_buffer` fills slot set
    /// 0. There is no pipeline where what is offered for the slot set is not
    /// the one uniform buffer that it declares.
    pub fn new(proj_buffer: Resource) -> (p: Color3DPipeline)
        requires
            proj_buffer.kind == ResourceKind::UniformBuffer,
        ensures
            p.pipeline.pipeline == PipelineKind::Color3D,
            p.pipeline.declared() == color3d_slots(),
            p.proj_uniform_device_buffer == proj_buffer,
            p.proj_desc_set@ == (GroupView {
                pipeline: PipelineKind::Color3D,
                slot_index: 0,
                resources: seq![proj_buffer],
            }),
    {
        let pipeline = Color3DPipeline::layout();
        assert(pipeline.accepts(0, seq![proj_buffer]));
        let proj = UniformDeviceAndDescriptor::build(&pipeline, 0, proj_buffer).unwrap();
        Color3DPipeline {
            pipeline,
            proj_uniform_device_buffer: proj.device_buffer,
            proj_desc_set: proj.desc_set,
        }
    }
}

} // verus!
