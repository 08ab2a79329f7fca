use meshterial::binding::{BindError, PipelineKind, Resource, ResourceKind};
use meshterial::pipelines::color3d::Color3DPipeline;
use meshterial::pipelines::phong::PhongPipeline;
use meshterial::pipelines::texture2d::Texture2DPipeline;
use meshterial::pipelines::uniform::UniformDeviceAndDescriptor;

fn buffer(id: u64) -> Resource {
    Resource { kind: ResourceKind::UniformBuffer, id }
}

fn check_uniform(uniform: &UniformDeviceAndDescriptor, pipeline: PipelineKind, slot: usize, id: u64) {
    assert_eq!(uniform.device_buffer, buffer(id));
    assert_eq!(uniform.desc_set.pipeline(), pipeline);
    assert_eq!(uniform.desc_set.slot_index(), slot);
    assert_eq!(uniform.desc_set.resources(), &vec![buffer(id)]);
}

#[test]
fn color3d_binds_the_projection_to_slot_set_0() {
    let p = Color3DPipeline::new(buffer(4));
    assert_eq!(p.pipeline.pipeline, PipelineKind::Color3D);
    assert_eq!(p.pipeline.sets, vec![vec![ResourceKind::UniformBuffer]]);
    assert_eq!(p.proj_uniform_device_buffer, buffer(4));
    assert_eq!(p.proj_desc_set.pipeline(), PipelineKind::Color3D);
    assert_eq!(p.proj_desc_set.slot_index(), 0);
    assert_eq!(p.proj_desc_set.resources(), &vec![buffer(4)]);
}

#[test]
fn phong_binds_projection_materials_and_light() {
    let materials = vec![(String::from("brass"), buffer(11)), (String::from("clay"), buffer(12))];
    let p = PhongPipeline::new(buffer(10), buffer(13), materials);
    assert_eq!(p.pipeline.pipeline, PipelineKind::Phong);
    assert_eq!(p.pipeline.sets, vec![vec![ResourceKind::UniformBuffer]; 3]);
    check_uniform(&p.proj, PipelineKind::Phong, 0, 10);
    check_uniform(&p.light, PipelineKind::Phong, 2, 13);
    assert_eq!(p.materials.len(), 2);
    check_uniform(p.materials.get("brass").unwrap(), PipelineKind::Phong, 1, 11);
    check_uniform(p.materials.get("clay").unwrap(), PipelineKind::Phong, 1, 12);
    assert!(p.materials.get("glass").is_none());
}

#[test]
fn phong_without_materials_binds_projection_and_light() {
    let p = PhongPipeline::new(buffer(1), buffer(2), vec![]);
    check_uniform(&p.proj, PipelineKind::Phong, 0, 1);
    check_uniform(&p.light, PipelineKind::Phong, 2, 2);
    assert!(p.materials.is_empty());
}

#[test]
fn phong_keeps_the_last_buffer_of_a_repeated_name() {
    let materials = vec![
        (String::from("brass"), buffer(11)),
        (String::from("clay"), buffer(12)),
        (String::from("brass"), buffer(14)),
    ];
    let p = PhongPipeline::new(buffer(10), buffer(13), materials);
    assert_eq!(p.materials.len(), 2);
    check_uniform(p.materials.get("brass").unwrap(), PipelineKind::Phong, 1, 14);
    check_uniform(p.materials.get("clay").unwrap(), PipelineKind::Phong, 1, 12);
}

#[test]
fn texture2d_binds_the_projection_and_no_texture() {
    let p = Texture2DPipeline::new(buffer(4));
    assert_eq!(p.pipeline.pipeline, PipelineKind::Texture2D);
    assert_eq!(
        p.pipeline.sets,
        vec![vec![ResourceKind::UniformBuffer], vec![ResourceKind::SampledImage]]
    );
    assert_eq!(p.proj_uniform_device_buffer, buffer(4));
    assert_eq!(p.proj_desc_set.slot_index(), 0);
    assert_eq!(p.proj_desc_set.resources(), &vec![buffer(4)]);
    assert!(p.may_tex_desc_set.is_none());
}

#[test]
fn texture2d_binds_a_texture_to_slot_set_1() {
    let p = Texture2DPipeline::new(buffer(4));
    assert!(p.takes_textures());
    let group = p.desc_set_for_texture(9);
    assert_eq!(group.pipeline(), PipelineKind::Texture2D);
    assert_eq!(group.slot_index(), 1);
    assert_eq!(group.resources(), &vec![Resource::sampled_image(9)]);
}

#[test]
fn texture2d_takes_no_texture_once_its_layout_takes_none() {
    let mut p = Texture2DPipeline::new(buffer(4));
    p.pipeline.sets.truncate(1);
    assert!(!p.takes_textures());
    let mut q = Texture2DPipeline::new(buffer(4));
    q.pipeline.sets[1] = vec![ResourceKind::UniformBuffer];
    assert!(!q.takes_textures());
    let mut r = Texture2DPipeline::new(buffer(4));
    r.pipeline.sets[1].push(ResourceKind::SampledImage);
    assert!(!r.takes_textures());
}

#[test]
fn uniform_is_refused_where_the_slot_takes_an_image() {
    let layout = Texture2DPipeline::layout();
    let err = UniformDeviceAndDescriptor::build(&layout, 1, buffer(5)).unwrap_err();
    assert_eq!(
        err,
        BindError::KindMismatch {
            binding: 0,
            declared: ResourceKind::SampledImage,
            found: ResourceKind::UniformBuffer,
        }
    );
    let image = Resource::sampled_image(6);
    let err = UniformDeviceAndDescriptor::build(&layout, 0, image).unwrap_err();
    assert_eq!(
        err,
        BindError::KindMismatch {
            binding: 0,
            declared: ResourceKind::UniformBuffer,
            found: ResourceKind::SampledImage,
        }
    );
    let uniform = UniformDeviceAndDescriptor::build(&layout, 0, buffer(5)).unwrap();
    check_uniform(&uniform, PipelineKind::Texture2D, 0, 5);
}

#[test]
fn resources_are_made_of_their_kind() {
    assert_eq!(
        Resource::uniform_buffer(3),
        Resource { kind: ResourceKind::UniformBuffer, id: 3 }
    );
    assert_eq!(Resource::sampled_image(4), Resource { kind: ResourceKind::SampledImage, id: 4 });
}

#[test]
fn declared_layouts_name_their_pipeline() {
    assert_eq!(Color3DPipeline::layout().pipeline, PipelineKind::Color3D);
    assert_eq!(PhongPipeline::layout().pipeline, PipelineKind::Phong);
    assert_eq!(Texture2DPipeline::layout().pipeline, PipelineKind::Texture2D);
    assert_eq!(PhongPipeline::layout().sets.len(), 3);
}
