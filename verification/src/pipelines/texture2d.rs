//! The pipeline for textured 2D geometry: the projection in slot set 0, the
//! texture of the draw in slot set 1.

use vstd::prelude::*;
use crate::binding::{BoundGroup, GroupView, PipelineKind, PipelineLayout, Resource, ResourceKind};
use crate::pipelines::uniform::UniformDeviceAndDescriptor;

verus! {

/// The slot sets that the pipeline declares.
pub open spec fn texture2d_slots() -> Seq<Seq<ResourceKind>> {
    seq![seq![ResourceKind::UniformBuffer], seq![ResourceKind::SampledImage]]
}

/// The texture that the driver knows by `id`, with its sampler.
pub open spec fn sampled_image(id: u64) -> Resource {
    Resource { kind: ResourceKind::SampledImage, id }
}

/// The bindings of the pipeline for textured 2D geometry.
pub struct Texture2DPipeline {
    pub pipeline: PipelineLayout,
    pub proj_uniform_device_buffer: Resource,
    pub proj_desc_set: BoundGroup,
    pub may_tex_desc_set: Option<BoundGroup>,
}

impl Texture2DPipeline {
    /// The layout that the pipeline declares.
    pub fn layout() -> (layout: PipelineLayout)
        ensures
            layout.pipeline == PipelineKind::Texture2D,
            layout.declared() == texture2d_slots(),
            layout.declared().len() == PipelineKind::Texture2D.slot_sets(),
    {
        let layout = PipelineLayout {
            pipeline: PipelineKind::Texture2D,
            sets: vec![vec![ResourceKind::UniformBuffer], vec![ResourceKind::SampledImage]],
        };
        assert(layout.declared() =~~= texture2d_slots());
        layout
    }

    /// The pipeline with its projection bound: `proj_buffer` fills slot set
    /// 0. No texture is bound yet. There is no pipeline where what is
    /// offered for the slot set is not the one uniform buffer that it
    /// declares.
    pub fn new(proj_buffer: Resource) -> (p: Texture2DPipeline)
        requires
            proj_buffer.kind == ResourceKind::UniformBuffer,
        ensures
            p.pipeline.pipeline == PipelineKind::Texture2D,
            p.pipeline.declared() == texture2d_slots(),
            p.proj_uniform_device_buffer == proj_buffer,
            p.proj_desc_set@ == (GroupView {
                pipeline: PipelineKind::Texture2D,
                slot_index: 0,
                resources: seq![proj_buffer],
            }),
            p.may_tex_desc_set is None,
    {
        let pipeline = Texture2DPipeline::layout();
        assert(pipeline.accepts(0, seq![proj_buffer]));
        let proj = UniformDeviceAndDescriptor::build(&pipeline, 0, proj_buffer).unwrap();
        Texture2DPipeline {
            pipeline,
            proj_uniform_device_buffer: proj.device_buffer,
            proj_desc_set: proj.desc_set,
            may_tex_desc_set: None,
        }
    }

    /// Whether slot set 1 of the layout takes a texture: it exists and
    /// declares one sampled image and nothing else. It does as long as the
    /// layout is the one that the pipeline declares.
    pub fn takes_textures(&self) -> (takes: bool)
        ensures
            forall|texture: u64|
                takes == #[trigger] self.pipeline.accepts(1, seq![sampled_image(texture)]),
            self.pipeline.declared() == texture2d_slots() ==> takes,
    {
        let takes = self.pipeline.sets.len() > 1 && self.pipeline.sets[1].len() == 1
            && self.pipeline.sets[1][0] == ResourceKind::SampledImage;
        proof {
            assert forall|texture: u64|
                takes == #[trigger] self.pipeline.accepts(1, seq![sampled_image(texture)]) by {
                let offered = seq![sampled_image(texture)];
                if self.pipeline.sets@.len() > 1 {
                    assert(self.pipeline.declared()[1] == self.pipeline.sets@[1]@);
                    if takes {
                        assert(offered[0].kind == self.pipeline.declared()[1][0]);
                    } else if self.pipeline.sets@[1]@.len() == 1 {
                        assert(offered[0].kind != self.pipeline.declared()[1][0]);
                    }
                }
            }
            if self.pipeline.declared() == texture2d_slots() {
                assert(self.pipeline.accepts(1, seq![sampled_image(0)]));
            }
        }
        takes
    }

    /// The group that binds the texture known by `texture` to slot set 1.
    /// There is no such group where slot set 1 of the layout does not take a
    /// texture.
    pub fn desc_set_for_texture(&self, texture: u64) -> (group: BoundGroup)
        requires
            self.pipeline.accepts(1, seq![sampled_image(texture)]),
        ensures
            group@ == (GroupView {
                pipeline: self.pipeline.pipeline,
                slot_index: 1,
                resources: seq![sampled_image(texture)],
            }),
    {
        let mut resources: Vec<Resource> = Vec::new();
        resources.push(Resource { kind: ResourceKind::SampledImage, id: texture });
        assert(resources@ == seq![sampled_image(texture)]);
        BoundGroup::build(&self.pipeline, 1, resources).unwrap()
    }
}

} // verus!
