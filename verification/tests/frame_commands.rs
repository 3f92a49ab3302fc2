use triangle::commands::{
    allocate_command_buffers, color_subresource_range, create_image_view, create_pipeline,
    create_shader_stage_info, frame_commands, transition_image_layout, Command, CommandPoolSettings,
    ComponentMapping, ImageBarrier, SubresourceRange,
};
use triangle::swapchain::Extent2D;
use triangle::vk::{
    ACCESS2_COLOR_ATTACHMENT_WRITE, ACCESS2_NONE, ATTACHMENT_LOAD_OP_CLEAR, ATTACHMENT_STORE_OP_STORE,
    COLOR_COMPONENT_RGBA, COMMAND_POOL_RESET_COMMAND_BUFFER, CULL_MODE_BACK, DYNAMIC_STATE_SCISSOR,
    DYNAMIC_STATE_VIEWPORT, FRONT_FACE_CLOCKWISE, IMAGE_ASPECT_COLOR, IMAGE_LAYOUT_COLOR_ATTACHMENT_OPTIMAL,
    IMAGE_LAYOUT_PRESENT_SRC, IMAGE_LAYOUT_UNDEFINED, IMAGE_VIEW_TYPE_2D, PIPELINE_BIND_POINT_GRAPHICS,
    POLYGON_MODE_FILL, PRIMITIVE_TOPOLOGY_TRIANGLE_LIST, QUEUE_FAMILY_IGNORED, SAMPLE_COUNT_1,
    SHADER_STAGE_FRAGMENT, SHADER_STAGE_VERTEX, STAGE2_BOTTOM_OF_PIPE, STAGE2_COLOR_ATTACHMENT_OUTPUT,
};

fn whole_color() -> SubresourceRange {
    SubresourceRange { aspect_mask: IMAGE_ASPECT_COLOR, base_mip_level: 0, level_count: 1, base_array_layer: 0, layer_count: 1 }
}

#[test]
fn transition_covers_whole_image_without_ownership_transfer() {
    let barrier = transition_image_layout(9, 1, 2, 3, 4, 5, 6);
    assert_eq!(
        barrier,
        ImageBarrier {
            src_stage_mask: 5,
            src_access_mask: 3,
            dst_stage_mask: 6,
            dst_access_mask: 4,
            old_layout: 1,
            new_layout: 2,
            src_queue_family_index: QUEUE_FAMILY_IGNORED,
            dst_queue_family_index: QUEUE_FAMILY_IGNORED,
            image: 9,
            subresource_range: whole_color(),
        }
    );
    assert_eq!(color_subresource_range(), whole_color());
}

#[test]
fn frame_draws_one_triangle_between_layout_transitions() {
    let extent = Extent2D { width: 1024, height: 768 };
    let commands = frame_commands(11, 22, 33, extent);
    let to_attachment = ImageBarrier {
        src_stage_mask: STAGE2_COLOR_ATTACHMENT_OUTPUT,
        src_access_mask: ACCESS2_NONE,
        dst_stage_mask: STAGE2_COLOR_ATTACHMENT_OUTPUT,
        dst_access_mask: ACCESS2_COLOR_ATTACHMENT_WRITE,
        old_layout: IMAGE_LAYOUT_UNDEFINED,
        new_layout: IMAGE_LAYOUT_COLOR_ATTACHMENT_OPTIMAL,
        src_queue_family_index: QUEUE_FAMILY_IGNORED,
        dst_queue_family_index: QUEUE_FAMILY_IGNORED,
        image: 11,
        subresource_range: whole_color(),
    };
    let to_present = ImageBarrier {
        src_stage_mask: STAGE2_COLOR_ATTACHMENT_OUTPUT,
        src_access_mask: ACCESS2_COLOR_ATTACHMENT_WRITE,
        dst_stage_mask: STAGE2_BOTTOM_OF_PIPE,
        dst_access_mask: ACCESS2_NONE,
        old_layout: IMAGE_LAYOUT_COLOR_ATTACHMENT_OPTIMAL,
        new_layout: IMAGE_LAYOUT_PRESENT_SRC,
        src_queue_family_index: QUEUE_FAMILY_IGNORED,
        dst_queue_family_index: QUEUE_FAMILY_IGNORED,
        image: 11,
        subresource_range: whole_color(),
    };
    assert_eq!(
        commands,
        vec![
            Command::Begin,
            Command::PipelineBarrier(to_attachment),
            Command::BeginRendering {
                image_view: 22,
                image_layout: IMAGE_LAYOUT_COLOR_ATTACHMENT_OPTIMAL,
                load_op: ATTACHMENT_LOAD_OP_CLEAR,
                store_op: ATTACHMENT_STORE_OP_STORE,
                render_area: extent,
                layer_count: 1,
            },
            Command::BindPipeline { bind_point: PIPELINE_BIND_POINT_GRAPHICS, pipeline: 33 },
            Command::SetViewport { width: 1024, height: 768 },
            Command::SetScissor { extent },
            Command::Draw { vertex_count: 3, instance_count: 1, first_vertex: 0, first_instance: 0 },
            Command::EndRendering,
            Command::PipelineBarrier(to_present),
            Command::End,
        ]
    );
}

#[test]
fn image_view_is_plain_2d_color() {
    let view = create_image_view(5, 50);
    assert_eq!(view.image, 5);
    assert_eq!(view.format, 50);
    assert_eq!(view.view_type, IMAGE_VIEW_TYPE_2D);
    assert_eq!(view.components, ComponentMapping { r: 0, g: 0, b: 0, a: 0 });
    assert_eq!(view.subresource_range, whole_color());
}

#[test]
fn pipeline_is_fixed_function_triangle_list() {
    let stages = vec![
        create_shader_stage_info(7, SHADER_STAGE_VERTEX, "vertMain"),
        create_shader_stage_info(7, SHADER_STAGE_FRAGMENT, "fragMain"),
    ];
    let pipeline = create_pipeline(stages.clone(), 50);
    assert_eq!(pipeline.stages, stages);
    assert_eq!(pipeline.stages[1].entry_name, "fragMain");
    assert_eq!(pipeline.dynamic_states, [DYNAMIC_STATE_VIEWPORT, DYNAMIC_STATE_SCISSOR]);
    assert_eq!(pipeline.topology, PRIMITIVE_TOPOLOGY_TRIANGLE_LIST);
    assert_eq!((pipeline.viewport_count, pipeline.scissor_count), (1, 1));
    assert_eq!(pipeline.polygon_mode, POLYGON_MODE_FILL);
    assert_eq!(pipeline.cull_mode, CULL_MODE_BACK);
    assert_eq!(pipeline.front_face, FRONT_FACE_CLOCKWISE);
    assert_eq!(pipeline.rasterization_samples, SAMPLE_COUNT_1);
    assert!(!pipeline.sample_shading_enable);
    assert_eq!(pipeline.color_write_mask, COLOR_COMPONENT_RGBA);
    assert_eq!(pipeline.color_attachment_format, 50);
}

#[test]
fn command_pool_resets_buffers_one_by_one() {
    assert_eq!(
        allocate_command_buffers(2, 3),
        CommandPoolSettings { queue_family_index: 2, flags: COMMAND_POOL_RESET_COMMAND_BUFFER, command_buffer_count: 3 }
    );
}

#[test]
fn pipeline_has_vertex_then_fragment_stage() {
    let stages = triangle::commands::pipeline_stages(7);
    assert_eq!(
        stages,
        vec![
            create_shader_stage_info(7, SHADER_STAGE_VERTEX, "vertMain"),
            create_shader_stage_info(7, SHADER_STAGE_FRAGMENT, "fragMain"),
        ]
    );
}

#[test]
fn fence_starts_signalled() {
    let sync = triangle::commands::sync_settings();
    assert_eq!(sync.queue_index, 0);
    assert_eq!(sync.semaphore_flags, 0);
    assert_eq!(sync.fence_flags, triangle::vk::FENCE_CREATE_SIGNALED);
}

#[test]
fn one_command_buffer_per_image() {
    assert_eq!(
        triangle::commands::command_pool_for_images(4, 3),
        CommandPoolSettings { queue_family_index: 4, flags: COMMAND_POOL_RESET_COMMAND_BUFFER, command_buffer_count: 3 }
    );
}
