//! A uniform as a pipeline holds it: the device-resident buffer with the
//! data, and the group that binds the buffer to its slot set.

use vstd::prelude::*;
use crate::binding::{BoundGroup, GroupView, PipelineKind, PipelineLayout, Resource};

verus! {

/// A device-resident uniform buffer and the group that binds it.
#[derive(Debug)]
pub struct UniformDeviceAndDescriptor {
    pub device_buffer: Resource,
    pub desc_set: BoundGroup,
}

impl UniformDeviceAndDescriptor {
    /// Whether this is the uniform of `buffer`, bound alone to slot set
    /// `slot_index` of `pipeline`.
    pub open spec fn binds(&self, pipeline: PipelineKind, slot_index: usize, buffer: Resource)
        -> bool {
        &&& self.device_buffer == buffer
        &&& self.desc_set@ == (GroupView { pipeline, slot_index, resources: seq![buffer] })
    }

    /// The uniform of `buffer`, bound alone to slot set `slot_index` of the
    /// pipeline that `layout` describes. Fails, building nothing, unless
    /// that slot set declares exactly one binding, of the kind of `buffer`.
    pub fn build(layout: &PipelineLayout, slot_index: usize, buffer: Resource) -> (result: Result<
        UniformDeviceAndDescriptor,
        crate::binding::BindError,
    >)
        ensures
            result is Ok <==> layout.accepts(slot_index, seq![buffer]),
            match result {
                Ok(uniform) => uniform.binds(layout.pipeline, slot_index, buffer),
                Err(e) => layout.mismatch(slot_index, seq![buffer]) == Some(e),
            },
    {
        let mut resources: Vec<Resource> = Vec::new();
        resources.push(buffer);
        assert(resources@ == seq![buffer]);
        match BoundGroup::build(layout, slot_index, resources) {
            Ok(desc_set) => Ok(UniformDeviceAndDescriptor { device_buffer: buffer, desc_set }),
            Err(e) => Err(e),
        }
    }
}

} // verus!
