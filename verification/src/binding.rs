//! Bound resource groups: fixed bindings of buffers and images to the slots
//! that a pipeline declares.
//!
//! A group is checked once, against the declared layout, when it is built. It
//! is never changed afterwards: new data reaches the GPU through the buffers
//! the group refers to, not through a new group.

use vstd::prelude::*;

verus! {

/// The pipelines of this renderer.
#[derive(Clone, Copy, PartialEq, Eq, Structural, Debug)]
pub enum PipelineKind {
    /// Coloured 3D geometry.
    Color3D,
    /// Lit 3D geometry with per-material uniforms.
    Phong,
    /// Textured 2D geometry.
    Texture2D,
}

impl PipelineKind {
    /// The number of slot sets that the pipeline declares.
    pub open spec fn spec_slot_sets(self) -> usize {
        match self {
            PipelineKind::Color3D => 1,
            PipelineKind::Phong => 3,
            PipelineKind::Texture2D => 2,
        }
    }

    /// The number of slot sets that the pipeline declares.
    #[verifier::when_used_as_spec(spec_slot_sets)]
    pub fn slot_sets(self) -> (sets: usize)
        ensures
            sets == self.spec_slot_sets(),
    {
        match self {
            PipelineKind::Color3D => 1,
            PipelineKind::Phong => 3,
            PipelineKind::Texture2D => 2,
        }
    }
}

/// What a slot of a pipeline can hold.
#[derive(Clone, Copy, PartialEq, Eq, Structural, Debug)]
pub enum ResourceKind {
    /// A device-resident uniform buffer.
    UniformBuffer,
    /// An image together with its sampler.
    SampledImage,
}

/// A GPU resource, named by its kind and the identity the driver knows it by.
#[derive(Clone, Copy, PartialEq, Eq, Structural, Debug)]
pub struct Resource {
    pub kind: ResourceKind,
    pub id: u64,
}

impl Resource {
    /// The uniform buffer that the driver knows by `id`.
    pub fn uniform_buffer(id: u64) -> (resource: Resource)
        ensures
            resource == (Resource { kind: ResourceKind::UniformBuffer, id }),
    {
        Resource { kind: ResourceKind::UniformBuffer, id }
    }

    /// The image, with its sampler, that the driver knows by `id`.
    pub fn sampled_image(id: u64) -> (resource: Resource)
        ensures
            resource == (Resource { kind: ResourceKind::SampledImage, id }),
    {
        Resource { kind: ResourceKind::SampledImage, id }
    }
}

/// Why a group could not be built.
#[derive(Clone, Copy, PartialEq, Eq, Structural, Debug)]
pub enum BindError {
    /// The pipeline declares no slot set with this index.
    NoSuchSlotSet { slot_index: usize, sets: usize },
    /// The slot set declares another number of bindings.
    ArityMismatch { bindings: usize, offered: usize },
    /// The resource offered for `binding` is of the wrong kind.
    KindMismatch { binding: usize, declared: ResourceKind, found: ResourceKind },
}

/// The slot sets a pipeline declares: for each set, the kind of resource that
/// each of its bindings takes.
#[derive(Debug)]
pub struct PipelineLayout {
    pub pipeline: PipelineKind,
    pub sets: Vec<Vec<ResourceKind>>,
}

impl PipelineLayout {
    /// The declared kinds, set by set.
    pub open spec fn declared(&self) -> Seq<Seq<ResourceKind>> {
        Seq::new(self.sets@.len(), |i: int| self.sets@[i]@)
    }

    /// Whether `resources` fill slot set `slot_index` exactly: the set exists,
    /// as many resources as bindings, each of the declared kind.
    pub open spec fn accepts(&self, slot_index: usize, resources: Seq<Resource>) -> bool {
        &&& slot_index < self.declared().len()
        &&& resources.len() == self.declared()[slot_index as int].len()
        &&& forall|i: int|
            0 <= i < resources.len() ==> (#[trigger] resources[i]).kind
                == self.declared()[slot_index as int][i]
    }

    /// The first reason for which `resources` do not fill slot set
    /// `slot_index`, if there is one.
    pub open spec fn mismatch(&self, slot_index: usize, resources: Seq<Resource>) -> Option<
        BindError,
    > {
        if slot_index >= self.declared().len() {
            Some(BindError::NoSuchSlotSet { slot_index, sets: self.declared().len() as usize })
        } else {
            let expected = self.declared()[slot_index as int];
            if resources.len() != expected.len() {
                Some(
                    BindError::ArityMismatch {
                        bindings: expected.len() as usize,
                        offered: resources.len() as usize,
                    },
                )
            } else {
                let first = first_wrong_kind(expected, resources);
                if first < resources.len() {
                    Some(
                        BindError::KindMismatch {
                            binding: first as usize,
                            declared: expected[first],
                            found: resources[first].kind,
                        },
                    )
                } else {
                    None
                }
            }
        }
    }
}

/// The least binding at which `resources` departs from `expected`, or the
/// length of `resources` if there is none.
pub open spec fn first_wrong_kind(expected: Seq<ResourceKind>, resources: Seq<Resource>) -> int
    decreases resources.len(),
{
    if resources.len() == 0 || expected.len() == 0 {
        0
    } else if resources[0].kind != expected[0] {
        0
    } else {
        1 + first_wrong_kind(expected.skip(1), resources.skip(1))
    }
}

/// What a group binds.
pub struct GroupView {
    pub pipeline: PipelineKind,
    pub slot_index: usize,
    pub resources: Seq<Resource>,
}

/// Resources bound to one slot set of a pipeline.
#[derive(Debug)]
pub struct BoundGroup {
    pipeline: PipelineKind,
    slot_index: usize,
    resources: Vec<Resource>,
}

impl View for BoundGroup {
    type V = GroupView;

    closed spec fn view(&self) -> GroupView {
        GroupView {
            pipeline: self.pipeline,
            slot_index: self.slot_index,
            resources: self.resources@,
        }
    }
}

impl BoundGroup {
    /// Binds `resources` to slot set `slot_index` of the pipeline that
    /// `layout` describes. Fails, building nothing, unless the resources fill
    /// the declared bindings exactly.
    pub fn build(layout: &PipelineLayout, slot_index: usize, resources: Vec<Resource>) -> (result:
        Result<BoundGroup, BindError>)
        ensures
            result is Ok <==> layout.accepts(slot_index, resources@),
            match result {
                Ok(group) => {
                    &&& layout.mismatch(slot_index, resources@) is None
                    &&& group@.pipeline == layout.pipeline
                    &&& group@.slot_index == slot_index
                    &&& group@.resources == resources@
                },
                Err(e) => layout.mismatch(slot_index, resources@) == Some(e),
            },
    {
        proof {
            lemma_mismatch_none_iff_accepts(*layout, slot_index, resources@);
        }
        if slot_index >= layout.sets.len() {
            return Err(BindError::NoSuchSlotSet { slot_index, sets: layout.sets.len() });
        }
        let expected = &layout.sets[slot_index];
        assert(expected@ == layout.declared()[slot_index as int]);
        if resources.len() != expected.len() {
            return Err(
                BindError::ArityMismatch { bindings: expected.len(), offered: resources.len() },
            );
        }
        let mut i: usize = 0;
        while i < resources.len()
            invariant
                i <= resources.len(),
                resources.len() == expected.len(),
                slot_index < layout.declared().len(),
                expected@ == layout.declared()[slot_index as int],
                layout.mismatch(slot_index, resources@) is None <==> layout.accepts(
                    slot_index,
                    resources@,
                ),
                forall|j: int| 0 <= j < i ==> resources@[j].kind == expected@[j],
            decreases resources.len() - i,
        {
            if resources[i].kind != expected[i] {
                proof {
                    lemma_first_wrong_kind(expected@, resources@, i as int);
                }
                return Err(
                    BindError::KindMismatch {
                        binding: i,
                        declared: expected[i],
                        found: resources[i].kind,
                    },
                );
            }
            i += 1;
        }
        proof {
            lemma_first_wrong_kind(expected@, resources@, resources.len() as int);
        }
        Ok(BoundGroup { pipeline: layout.pipeline, slot_index, resources })
    }

    /// The pipeline this group belongs to.
    pub fn pipeline(&self) -> (p: PipelineKind)
        ensures
            p == self@.pipeline,
    {
        self.pipeline
    }

    /// The slot set this group fills.
    pub fn slot_index(&self) -> (i: usize)
        ensures
            i == self@.slot_index,
    {
        self.slot_index
    }

    /// The bound resources, in binding order.
    pub fn resources(&self) -> (r: &Vec<Resource>)
        ensures
            r@ == self@.resources,
    {
        &self.resources
    }

    /// A second reference to the same bindings.
    pub fn duplicate(&self) -> (copy: BoundGroup)
        ensures
            copy@ == self@,
    {
        let mut resources: Vec<Resource> = Vec::new();
        let mut i: usize = 0;
        while i < self.resources.len()
            invariant
                i <= self.resources.len(),
                resources@ == self.resources@.take(i as int),
            decreases self.resources.len() - i,
        {
            resources.push(self.resources[i]);
            assert(self.resources@.take(i as int + 1) == self.resources@.take(i as int).push(
                self.resources@[i as int],
            ));
            i += 1;
        }
        assert(self.resources@.take(i as int) == self.resources@);
        BoundGroup { pipeline: self.pipeline, slot_index: self.slot_index, resources }
    }
}

/// If the kinds agree below `first` and either `first` is the length or the
/// kinds differ at `first`, then `first` is the first wrong binding.
proof fn lemma_first_wrong_kind(expected: Seq<ResourceKind>, resources: Seq<Resource>, first: int)
    requires
        resources.len() == expected.len(),
        0 <= first <= resources.len(),
        forall|j: int| 0 <= j < first ==> resources[j].kind == expected[j],
        first < resources.len() ==> resources[first].kind != expected[first],
    ensures
        first_wrong_kind(expected, resources) == first,
    decreases resources.len(),
{
    if resources.len() == 0 {
    } else if first == 0 {
    } else {
        assert(resources[0].kind == expected[0]);
        let e = expected.skip(1);
        let r = resources.skip(1);
        assert forall|j: int| 0 <= j < first - 1 implies r[j].kind == e[j] by {
            assert(r[j] == resources[j + 1]);
            assert(e[j] == expected[j + 1]);
        }
        if first < resources.len() {
            assert(r[first - 1] == resources[first]);
            assert(e[first - 1] == expected[first]);
        }
        lemma_first_wrong_kind(e, r, first - 1);
    }
}

/// The first wrong binding lies within the resources, the kinds agree below
/// it, and they differ at it unless it is the length.
proof fn lemma_first_wrong_kind_is_first(expected: Seq<ResourceKind>, resources: Seq<Resource>)
    requires
        resources.len() == expected.len(),
    ensures
        0 <= first_wrong_kind(expected, resources) <= resources.len(),
        forall|j: int|
            0 <= j < first_wrong_kind(expected, resources) ==> (#[trigger] resources[j]).kind
                == expected[j],
        first_wrong_kind(expected, resources) < resources.len() ==> resources[first_wrong_kind(
            expected,
            resources,
        )].kind != expected[first_wrong_kind(expected, resources)],
    decreases resources.len(),
{
    if resources.len() == 0 {
    } else if resources[0].kind != expected[0] {
    } else {
        let e = expected.skip(1);
        let r = resources.skip(1);
        lemma_first_wrong_kind_is_first(e, r);
        let first = first_wrong_kind(e, r);
        assert forall|j: int| 0 <= j < first + 1 implies (#[trigger] resources[j]).kind
            == expected[j] by {
            if j > 0 {
                assert(r[j - 1] == resources[j]);
                assert(e[j - 1] == expected[j]);
            }
        }
        if first < r.len() {
            assert(r[first] == resources[first + 1]);
            assert(e[first] == expected[first + 1]);
        }
    }
}

/// A group is built exactly when no mismatch is found: the error computed for
/// a request is absent if and only if the slot set exists, the counts agree
/// and every resource has the declared kind.
pub proof fn lemma_mismatch_none_iff_accepts(
    layout: PipelineLayout,
    slot_index: usize,
    resources: Seq<Resource>,
)
    ensures
        layout.mismatch(slot_index, resources) is None <==> layout.accepts(slot_index, resources),
{
    if slot_index < layout.declared().len() {
        let expected = layout.declared()[slot_index as int];
        if resources.len() == expected.len() {
            lemma_first_wrong_kind_is_first(expected, resources);
            let first = first_wrong_kind(expected, resources);
            if first < resources.len() {
                assert(resources[first].kind != expected[first]);
            }
        }
    }
}

/// Resources that do not fill a slot set are refused, and always for the
/// same reason: with another count than the slot set declares bindings the
/// mismatch is that of arity, and with the right count but a resource of
/// another kind it is that of kind, at the first such binding. In neither
/// case is there a group.
pub proof fn lemma_mismatched_resources_are_refused(
    layout: PipelineLayout,
    slot_index: usize,
    resources: Seq<Resource>,
)
    requires
        slot_index < layout.declared().len(),
        resources.len() <= usize::MAX,
    ensures
        resources.len() != layout.declared()[slot_index as int].len() ==> layout.mismatch(
            slot_index,
            resources,
        ) == Some(
            BindError::ArityMismatch {
                bindings: layout.declared()[slot_index as int].len() as usize,
                offered: resources.len() as usize,
            },
        ),
        resources.len() == layout.declared()[slot_index as int].len() ==> forall|i: int|
            0 <= i < resources.len() && (#[trigger] resources[i]).kind
                != layout.declared()[slot_index as int][i] ==> (layout.mismatch(
                slot_index,
                resources,
            ) matches Some(BindError::KindMismatch { binding, declared, found }) && binding <= i
                && declared == layout.declared()[slot_index as int][binding as int] && found
                == resources[binding as int].kind && declared != found),
        !layout.accepts(slot_index, resources) ==> layout.mismatch(slot_index, resources) is Some,
{
    lemma_mismatch_none_iff_accepts(layout, slot_index, resources);
    let expected = layout.declared()[slot_index as int];
    if resources.len() == expected.len() {
        lemma_first_wrong_kind_is_first(expected, resources);
    }
}

} // verus!
