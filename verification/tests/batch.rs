use meshterial::batch::{BatchError, ClearValues, Command, CommandBatch, DrawCall, Framebuffer};
use meshterial::binding::{BoundGroup, PipelineKind, PipelineLayout, Resource, ResourceKind};
use meshterial::scratch::{ScratchPool, UniformKind};

fn framebuffer() -> Framebuffer {
    Framebuffer { image: 1, dimensions: [800, 600] }
}

fn clear() -> ClearValues {
    ClearValues { color: [0, 0, 255, 255], depth: 255 }
}

fn buffer(id: u64) -> Resource {
    Resource { kind: ResourceKind::UniformBuffer, id }
}

fn phong_layout() -> PipelineLayout {
    PipelineLayout {
        pipeline: PipelineKind::Phong,
        sets: vec![
            vec![ResourceKind::UniformBuffer],
            vec![ResourceKind::UniformBuffer],
            vec![ResourceKind::UniformBuffer],
        ],
    }
}

fn group(slot_index: usize, id: u64) -> BoundGroup {
    BoundGroup::build(&phong_layout(), slot_index, vec![buffer(id)]).unwrap()
}

fn draw_call() -> DrawCall {
    DrawCall {
        pipeline: PipelineKind::Phong,
        vertices: 5,
        groups: vec![group(0, 10), group(1, 11), group(2, 12)],
        constants: 6,
    }
}

#[test]
fn new_batch_is_empty_and_outside_a_pass() {
    let batch = CommandBatch::new();
    assert_eq!(batch.len(), 0);
    assert!(!batch.in_render_pass());
}

#[test]
fn commands_are_kept_in_issue_order() {
    let mut pool: ScratchPool<u32> = ScratchPool::new(UniformKind::Light);
    let staged = pool.acquire(3);
    let sealed = CommandBatch::new()
        .copy_buffer(staged, buffer(12))
        .unwrap()
        .begin_render_pass(framebuffer(), clear())
        .unwrap()
        .draw(draw_call())
        .unwrap()
        .end_render_pass()
        .unwrap()
        .build()
        .unwrap();
    assert_eq!(sealed.len(), 4);
    let commands = sealed.into_commands();
    match &commands[0] {
        Command::CopyBuffer { source, destination } => {
            assert_eq!(source.region(), 0);
            assert_eq!(source.kind(), UniformKind::Light);
            assert_eq!(*destination, buffer(12));
        }
        other => panic!("expected a copy, found {:?}", other),
    }
    match &commands[1] {
        Command::BeginRenderPass { framebuffer: fb, clear: c } => {
            assert_eq!(*fb, framebuffer());
            assert_eq!(*c, clear());
        }
        other => panic!("expected the start of a pass, found {:?}", other),
    }
    match &commands[2] {
        Command::Draw(call) => {
            assert_eq!(call.pipeline, PipelineKind::Phong);
            assert_eq!(call.vertices, 5);
            assert_eq!(call.constants, 6);
            assert_eq!(call.groups.len(), 3);
            assert_eq!(call.groups[1].resources(), &vec![buffer(11)]);
        }
        other => panic!("expected a draw, found {:?}", other),
    }
    assert!(matches!(commands[3], Command::EndRenderPass));
}

#[test]
fn render_pass_opens_and_closes() {
    let batch = CommandBatch::new().begin_render_pass(framebuffer(), clear()).unwrap();
    assert!(batch.in_render_pass());
    let batch = batch.draw(draw_call()).unwrap();
    assert!(batch.in_render_pass());
    let batch = batch.end_render_pass().unwrap();
    assert!(!batch.in_render_pass());
    assert_eq!(batch.len(), 3);
}

#[test]
fn copy_is_refused_inside_a_pass() {
    let mut pool: ScratchPool<u32> = ScratchPool::new(UniformKind::Light);
    let staged = pool.acquire(3);
    let batch = CommandBatch::new().begin_render_pass(framebuffer(), clear()).unwrap();
    assert_eq!(
        batch.copy_buffer(staged, buffer(1)).unwrap_err(),
        BatchError::ForbiddenInsideRenderPass
    );
}

#[test]
fn copy_is_refused_into_an_image() {
    let mut pool: ScratchPool<u32> = ScratchPool::new(UniformKind::Light);
    let staged = pool.acquire(3);
    let texture = Resource { kind: ResourceKind::SampledImage, id: 1 };
    assert_eq!(
        CommandBatch::new().copy_buffer(staged, texture).unwrap_err(),
        BatchError::NotABuffer
    );
}

#[test]
fn second_pass_is_refused_inside_a_pass() {
    let batch = CommandBatch::new().begin_render_pass(framebuffer(), clear()).unwrap();
    assert_eq!(
        batch.begin_render_pass(framebuffer(), clear()).unwrap_err(),
        BatchError::ForbiddenInsideRenderPass
    );
}

#[test]
fn draw_is_refused_outside_a_pass() {
    assert_eq!(
        CommandBatch::new().draw(draw_call()).unwrap_err(),
        BatchError::ForbiddenOutsideRenderPass
    );
}

#[test]
fn draw_is_refused_with_groups_out_of_slot_order() {
    let call = DrawCall {
        pipeline: PipelineKind::Phong,
        vertices: 5,
        groups: vec![group(0, 10), group(2, 12), group(1, 11)],
        constants: 6,
    };
    assert!(!call.is_well_bound());
    let batch = CommandBatch::new().begin_render_pass(framebuffer(), clear()).unwrap();
    assert_eq!(batch.draw(call).unwrap_err(), BatchError::GroupMismatch);
}

#[test]
fn draw_is_refused_with_a_group_of_another_pipeline() {
    let call = DrawCall {
        pipeline: PipelineKind::Color3D,
        vertices: 5,
        groups: vec![group(0, 10)],
        constants: 6,
    };
    assert!(!call.is_well_bound());
    let batch = CommandBatch::new().begin_render_pass(framebuffer(), clear()).unwrap();
    assert_eq!(batch.draw(call).unwrap_err(), BatchError::GroupMismatch);
}

#[test]
fn draw_call_in_slot_order_is_well_bound() {
    assert!(draw_call().is_well_bound());
}

#[test]
fn draw_is_refused_with_fewer_groups_than_slot_sets() {
    let bare = DrawCall { pipeline: PipelineKind::Phong, vertices: 0, groups: vec![], constants: 0 };
    assert!(!bare.is_well_bound());
    let short = DrawCall {
        pipeline: PipelineKind::Phong,
        vertices: 5,
        groups: vec![group(0, 10), group(1, 11)],
        constants: 6,
    };
    assert!(!short.is_well_bound());
    let batch = CommandBatch::new().begin_render_pass(framebuffer(), clear()).unwrap();
    assert_eq!(batch.draw(short).unwrap_err(), BatchError::GroupMismatch);
}

#[test]
fn pipelines_declare_their_number_of_slot_sets() {
    assert_eq!(PipelineKind::Color3D.slot_sets(), 1);
    assert_eq!(PipelineKind::Phong.slot_sets(), 3);
    assert_eq!(PipelineKind::Texture2D.slot_sets(), 2);
}

#[test]
fn end_is_refused_outside_a_pass() {
    assert_eq!(
        CommandBatch::new().end_render_pass().unwrap_err(),
        BatchError::ForbiddenOutsideRenderPass
    );
    let closed = CommandBatch::new()
        .begin_render_pass(framebuffer(), clear())
        .unwrap()
        .end_render_pass()
        .unwrap();
    assert_eq!(closed.end_render_pass().unwrap_err(), BatchError::ForbiddenOutsideRenderPass);
}

#[test]
fn build_is_refused_while_a_pass_is_open() {
    let batch = CommandBatch::new().begin_render_pass(framebuffer(), clear()).unwrap();
    assert_eq!(batch.build().unwrap_err(), BatchError::ForbiddenInsideRenderPass);
}

#[test]
fn empty_batch_can_be_sealed() {
    let sealed = CommandBatch::new().build().unwrap();
    assert_eq!(sealed.len(), 0);
    assert!(sealed.commands().is_empty());
}
