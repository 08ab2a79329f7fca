//! The pipeline for lit 3D geometry: the projection in slot set 0, the
//! material of the draw in slot set 1, the light in slot set 2.

use vstd::prelude::*;
use vstd::hash_map::StringHashMap;
use crate::binding::{PipelineKind, PipelineLayout, Resource, ResourceKind};
use crate::pipelines::uniform::UniformDeviceAndDescriptor;

verus! {

/// The slot sets that the pipeline declares.
pub open spec fn phong_slots() -> Seq<Seq<ResourceKind>> {
    seq![
        seq![ResourceKind::UniformBuffer],
        seq![ResourceKind::UniformBuffer],
        seq![ResourceKind::UniformBuffer],
    ]
}

/// Whether entry `i` of `materials` is the last one with its name.
pub open spec fn is_last_of_name(materials: Seq<(String, Resource)>, i: int) -> bool {
    &&& 0 <= i < materials.len()
    &&& forall|j: int| i < j < materials.len() ==> (#[trigger] materials[j]).0@ != materials[i].0@
}

/// The bindings of the pipeline for lit 3D geometry.
pub struct PhongPipeline {
    pub pipeline: PipelineLayout,
    pub proj: UniformDeviceAndDescriptor,
    pub light: UniformDeviceAndDescriptor,
    pub materials: StringHashMap<UniformDeviceAndDescriptor>,
}

impl PhongPipeline {
    /// The layout that the pipeline declares.
    pub fn layout() -> (layout: PipelineLayout)
        ensures
            layout.pipeline == PipelineKind::Phong,
            layout.declared() == phong_slots(),
            layout.declared().len() == PipelineKind::Phong.slot_sets(),
    {
        let layout = PipelineLayout {
            pipeline: PipelineKind::Phong,
            sets: vec![
                vec![ResourceKind::UniformBuffer],
                vec![ResourceKind::UniformBuffer],
                vec![ResourceKind::UniformBuffer],
            ],
        };
        assert(layout.declared() =~~= phong_slots());
        layout
    }

    /// The pipeline with its uniforms bound. The projection fills slot set 0
    /// and the light slot set 2. Each material is named and has a buffer of
    /// its own, bound to slot set 1; where a name occurs more than once, its
    /// last buffer is the one that is kept. There is no pipeline where what
    /// is offered for a slot set is not the one uniform buffer that it
    /// declares.
    pub fn new(proj_buffer: Resource, light_buffer: Resource, materials: Vec<(String, Resource)>)
        -> (p: PhongPipeline)
        requires
            proj_buffer.kind == ResourceKind::UniformBuffer,
            light_buffer.kind == ResourceKind::UniformBuffer,
            forall|i: int|
                0 <= i < materials@.len() ==> (#[trigger] materials@[i]).1.kind
                    == ResourceKind::UniformBuffer,
        ensures
            p.pipeline.pipeline == PipelineKind::Phong,
            p.pipeline.declared() == phong_slots(),
            p.proj.binds(PipelineKind::Phong, 0, proj_buffer),
            p.light.binds(PipelineKind::Phong, 2, light_buffer),
            forall|name: Seq<char>|
                p.materials@.contains_key(name) <==> exists|i: int|
                    0 <= i < materials@.len() && (#[trigger] materials@[i]).0@ == name,
            forall|i: int|
                is_last_of_name(materials@, i) ==> (#[trigger] p.materials@[materials@[i].0@]).binds(
                    PipelineKind::Phong,
                    1,
                    materials@[i].1,
                ),
    {
        let pipeline = PhongPipeline::layout();
        assert(pipeline.accepts(0, seq![proj_buffer]));
        assert(pipeline.accepts(2, seq![light_buffer]));
        let proj = UniformDeviceAndDescriptor::build(&pipeline, 0, proj_buffer).unwrap();
        let mut bound: StringHashMap<UniformDeviceAndDescriptor> = StringHashMap::new();
        let mut k: usize = 0;
        while k < materials.len()
            invariant
                k <= materials.len(),
                forall|i: int|
                    0 <= i < materials@.len() ==> (#[trigger] materials@[i]).1.kind
                        == ResourceKind::UniformBuffer,
                pipeline.pipeline == PipelineKind::Phong,
                pipeline.declared() == phong_slots(),
                forall|name: Seq<char>|
                    bound@.contains_key(name) <==> exists|i: int|
                        0 <= i < k && (#[trigger] materials@[i]).0@ == name,
                forall|i: int|
                    is_last_of_name(materials@.take(k as int), i) ==> (#[trigger] bound@[materials@[i].0@]).binds(
                        PipelineKind::Phong,
                        1,
                        materials@[i].1,
                    ),
            decreases materials.len() - k,
        {
            let name = materials[k].0.clone();
            let buffer = materials[k].1;
            assert(pipeline.accepts(1, seq![buffer]));
            let uniform = UniformDeviceAndDescriptor::build(&pipeline, 1, buffer).unwrap();
            let ghost before = bound@;
            bound.insert(name, uniform);
            proof {
                let shorter = materials@.take(k as int);
                let longer = materials@.take(k as int + 1);
                assert forall|n: Seq<char>|
                    bound@.contains_key(n) <==> exists|i: int|
                        0 <= i < k + 1 && (#[trigger] materials@[i]).0@ == n by {
                    if bound@.contains_key(n) {
                        if n == name@ {
                            assert(materials@[k as int].0@ == n);
                        } else {
                            assert(before.contains_key(n));
                        }
                    }
                    if exists|i: int| 0 <= i < k + 1 && (#[trigger] materials@[i]).0@ == n {
                        let i = choose|i: int| 0 <= i < k + 1 && (#[trigger] materials@[i]).0@ == n;
                        if i < k {
                            assert(before.contains_key(n));
                        }
                    }
                }
                assert forall|i: int| is_last_of_name(longer, i) implies (#[trigger] bound@[materials@[i].0@]).binds(
                    PipelineKind::Phong,
                    1,
                    materials@[i].1,
                ) by {
                    assert(longer[i] == materials@[i]);
                    if i < k {
                        assert(longer[k as int] == materials@[k as int]);
                        assert(materials@[k as int].0@ != materials@[i].0@);
                        assert forall|j: int| i < j < shorter.len() implies (
                        #[trigger] shorter[j]).0@ != shorter[i].0@ by {
                            assert(longer[j] == shorter[j]);
                        }
                        assert(is_last_of_name(shorter, i));
                        assert(bound@[materials@[i].0@] == before[materials@[i].0@]);
                    }
                }
            }
            k += 1;
        }
        assert(materials@.take(k as int) == materials@);
        let light = UniformDeviceAndDescriptor::build(&pipeline, 2, light_buffer).unwrap();
        PhongPipeline { pipeline, proj, light, materials: bound }
    }
}

} // verus!
