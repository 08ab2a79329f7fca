use meshterial::binding::{BindError, BoundGroup, PipelineKind, PipelineLayout, Resource, ResourceKind};

fn buffer(id: u64) -> Resource {
    Resource { kind: ResourceKind::UniformBuffer, id }
}

fn image(id: u64) -> Resource {
    Resource { kind: ResourceKind::SampledImage, id }
}

fn layout() -> PipelineLayout {
    PipelineLayout {
        pipeline: PipelineKind::Texture2D,
        sets: vec![
            vec![ResourceKind::UniformBuffer],
            vec![ResourceKind::SampledImage, ResourceKind::UniformBuffer],
            vec![],
        ],
    }
}

#[test]
fn build_binds_matching_resources() {
    let group = BoundGroup::build(&layout(), 1, vec![image(7), buffer(8)]).unwrap();
    assert_eq!(group.pipeline(), PipelineKind::Texture2D);
    assert_eq!(group.slot_index(), 1);
    assert_eq!(group.resources(), &vec![image(7), buffer(8)]);
}

#[test]
fn build_binds_an_empty_slot_set() {
    let group = BoundGroup::build(&layout(), 2, vec![]).unwrap();
    assert_eq!(group.slot_index(), 2);
    assert!(group.resources().is_empty());
}

#[test]
fn build_refuses_an_undeclared_slot_set() {
    let err = BoundGroup::build(&layout(), 3, vec![buffer(1)]).unwrap_err();
    assert_eq!(err, BindError::NoSuchSlotSet { slot_index: 3, sets: 3 });
}

#[test]
fn build_refuses_too_few_resources() {
    let err = BoundGroup::build(&layout(), 1, vec![image(7)]).unwrap_err();
    assert_eq!(err, BindError::ArityMismatch { bindings: 2, offered: 1 });
}

#[test]
fn build_refuses_too_many_resources() {
    let err = BoundGroup::build(&layout(), 0, vec![buffer(1), buffer(2)]).unwrap_err();
    assert_eq!(err, BindError::ArityMismatch { bindings: 1, offered: 2 });
}

#[test]
fn build_refuses_a_resource_of_the_wrong_kind() {
    let err = BoundGroup::build(&layout(), 0, vec![image(1)]).unwrap_err();
    assert_eq!(
        err,
        BindError::KindMismatch {
            binding: 0,
            declared: ResourceKind::UniformBuffer,
            found: ResourceKind::SampledImage,
        }
    );
}

#[test]
fn build_reports_the_first_wrong_binding() {
    let err = BoundGroup::build(&layout(), 1, vec![image(1), image(2)]).unwrap_err();
    assert_eq!(
        err,
        BindError::KindMismatch {
            binding: 1,
            declared: ResourceKind::UniformBuffer,
            found: ResourceKind::SampledImage,
        }
    );
    let err = BoundGroup::build(&layout(), 1, vec![buffer(1), image(2)]).unwrap_err();
    assert_eq!(
        err,
        BindError::KindMismatch {
            binding: 0,
            declared: ResourceKind::SampledImage,
            found: ResourceKind::UniformBuffer,
        }
    );
}

#[test]
fn build_checks_arity_before_kinds() {
    let err = BoundGroup::build(&layout(), 1, vec![buffer(1)]).unwrap_err();
    assert_eq!(err, BindError::ArityMismatch { bindings: 2, offered: 1 });
}

#[test]
fn build_fails_the_same_way_every_time() {
    let first = BoundGroup::build(&layout(), 0, vec![image(1)]).unwrap_err();
    let second = BoundGroup::build(&layout(), 0, vec![image(1)]).unwrap_err();
    assert_eq!(first, second);
}

#[test]
fn duplicate_binds_the_same() {
    let group = BoundGroup::build(&layout(), 1, vec![image(7), buffer(8)]).unwrap();
    let copy = group.duplicate();
    assert_eq!(copy.pipeline(), group.pipeline());
    assert_eq!(copy.slot_index(), group.slot_index());
    assert_eq!(copy.resources(), group.resources());
}
