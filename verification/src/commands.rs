//! The Vulkan objects and commands that the renderer describes: image
//! views, layout transitions, the graphics pipeline, the command pool and
//! the commands that draw one frame.
use vstd::prelude::*;
use crate::app::{FRAGMENT_ENTRY_POINT, VERTEX_ENTRY_POINT};
use crate::swapchain::Extent2D;
use crate::vk::{
    ACCESS2_COLOR_ATTACHMENT_WRITE, ACCESS2_NONE, ATTACHMENT_LOAD_OP_CLEAR, ATTACHMENT_STORE_OP_STORE,
    COLOR_COMPONENT_RGBA, COMMAND_POOL_RESET_COMMAND_BUFFER, COMPONENT_SWIZZLE_IDENTITY, CULL_MODE_BACK,
    DYNAMIC_STATE_SCISSOR, DYNAMIC_STATE_VIEWPORT, FENCE_CREATE_SIGNALED, FRONT_FACE_CLOCKWISE, IMAGE_ASPECT_COLOR,
    IMAGE_LAYOUT_COLOR_ATTACHMENT_OPTIMAL, IMAGE_LAYOUT_PRESENT_SRC, IMAGE_LAYOUT_UNDEFINED,
    IMAGE_VIEW_TYPE_2D, PIPELINE_BIND_POINT_GRAPHICS, POLYGON_MODE_FILL,
    PRIMITIVE_TOPOLOGY_TRIANGLE_LIST, QUEUE_FAMILY_IGNORED, SAMPLE_COUNT_1, SHADER_STAGE_FRAGMENT,
    SHADER_STAGE_VERTEX, STAGE2_BOTTOM_OF_PIPE,
    STAGE2_COLOR_ATTACHMENT_OUTPUT,
};

verus! {

/// Which part of an image a view or barrier covers
/// (`vk::ImageSubresourceRange`).
#[derive(Clone, Copy, Debug, PartialEq, Eq, Structural)]
pub struct SubresourceRange {
    pub aspect_mask: u32,
    pub base_mip_level: u32,
    pub level_count: u32,
    pub base_array_layer: u32,
    pub layer_count: u32,
}

/// The colour aspect of mip level 0 and array layer 0: all of a swapchain
/// image.
pub open spec fn spec_color_range() -> SubresourceRange {
    SubresourceRange {
        aspect_mask: IMAGE_ASPECT_COLOR,
        base_mip_level: 0,
        level_count: 1,
        base_array_layer: 0,
        layer_count: 1,
    }
}

pub fn color_subresource_range() -> (range: SubresourceRange)
    ensures
        range == spec_color_range(),
{
    SubresourceRange {
        aspect_mask: IMAGE_ASPECT_COLOR,
        base_mip_level: 0,
        level_count: 1,
        base_array_layer: 0,
        layer_count: 1,
    }
}

/// The swizzle of each colour component of a view (`vk::ComponentMapping`).
#[derive(Clone, Copy, Debug, PartialEq, Eq, Structural)]
pub struct ComponentMapping {
    pub r: i32,
    pub g: i32,
    pub b: i32,
    pub a: i32,
}

/// What the renderer puts into a `vk::ImageViewCreateInfo`.
#[derive(Clone, Copy, Debug, PartialEq, Eq, Structural)]
pub struct ImageViewSettings {
    pub image: u64,
    pub view_type: i32,
    pub format: i32,
    pub components: ComponentMapping,
    pub subresource_range: SubresourceRange,
}

/// The view of the swapchain image `image` in `format`.
pub open spec fn spec_image_view(image: u64, format: i32) -> ImageViewSettings {
    ImageViewSettings {
        image,
        view_type: IMAGE_VIEW_TYPE_2D,
        format,
        components: ComponentMapping {
            r: COMPONENT_SWIZZLE_IDENTITY,
            g: COMPONENT_SWIZZLE_IDENTITY,
            b: COMPONENT_SWIZZLE_IDENTITY,
            a: COMPONENT_SWIZZLE_IDENTITY,
        },
        subresource_range: spec_color_range(),
    }
}

/// The view of a swapchain image: a 2D view in the image's format, with no
/// swizzling, covering the whole colour image.
pub fn create_image_view(image: u64, format: i32) -> (settings: ImageViewSettings)
    ensures
        settings == spec_image_view(image, format),
        settings.image == image,
        settings.format == format,
        settings.view_type == IMAGE_VIEW_TYPE_2D,
        settings.subresource_range == spec_color_range(),
{
    ImageViewSettings {
        image,
        view_type: IMAGE_VIEW_TYPE_2D,
        format,
        components: ComponentMapping {
            r: COMPONENT_SWIZZLE_IDENTITY,
            g: COMPONENT_SWIZZLE_IDENTITY,
            b: COMPONENT_SWIZZLE_IDENTITY,
            a: COMPONENT_SWIZZLE_IDENTITY,
        },
        subresource_range: color_subresource_range(),
    }
}

/// An image layout transition with its execution and memory dependency
/// (`vk::ImageMemoryBarrier2`).
#[derive(Clone, Copy, Debug, PartialEq, Eq, Structural)]
pub struct ImageBarrier {
    pub src_stage_mask: u64,
    pub src_access_mask: u64,
    pub dst_stage_mask: u64,
    pub dst_access_mask: u64,
    pub old_layout: i32,
    pub new_layout: i32,
    pub src_queue_family_index: u32,
    pub dst_queue_family_index: u32,
    pub image: u64,
    pub subresource_range: SubresourceRange,
}

pub open spec fn spec_transition(
    image: u64,
    old_layout: i32,
    new_layout: i32,
    src_access_mask: u64,
    dst_access_mask: u64,
    src_stage_mask: u64,
    dst_stage_mask: u64,
) -> ImageBarrier {
    ImageBarrier {
        src_stage_mask,
        src_access_mask,
        dst_stage_mask,
        dst_access_mask,
        old_layout,
        new_layout,
        src_queue_family_index: QUEUE_FAMILY_IGNORED,
        dst_queue_family_index: QUEUE_FAMILY_IGNORED,
        image,
        subresource_range: spec_color_range(),
    }
}

/// The barrier that moves the whole colour image `image` from `old_layout`
/// to `new_layout`: the work in `src_stage_mask` with the accesses in
/// `src_access_mask` finishes before the work in `dst_stage_mask` with the
/// accesses in `dst_access_mask` begins, and no queue family ownership
/// changes.
pub fn transition_image_layout(
    image: u64,
    old_layout: i32,
    new_layout: i32,
    src_access_mask: u64,
    dst_access_mask: u64,
    src_stage_mask: u64,
    dst_stage_mask: u64,
) -> (barrier: ImageBarrier)
    ensures
        barrier == spec_transition(image, old_layout, new_layout, src_access_mask, dst_access_mask,
            src_stage_mask, dst_stage_mask),
        barrier.image == image,
        barrier.old_layout == old_layout,
        barrier.new_layout == new_layout,
        barrier.src_access_mask == src_access_mask,
        barrier.dst_access_mask == dst_access_mask,
        barrier.src_stage_mask == src_stage_mask,
        barrier.dst_stage_mask == dst_stage_mask,
        barrier.src_queue_family_index == barrier.dst_queue_family_index,
        barrier.subresource_range.level_count == 1 && barrier.subresource_range.layer_count == 1,
{
    ImageBarrier {
        src_stage_mask,
        src_access_mask,
        dst_stage_mask,
        dst_access_mask,
        old_layout,
        new_layout,
        src_queue_family_index: QUEUE_FAMILY_IGNORED,
        dst_queue_family_index: QUEUE_FAMILY_IGNORED,
        image,
        subresource_range: color_subresource_range(),
    }
}

/// A shader stage of the pipeline (`vk::PipelineShaderStageCreateInfo`).
#[derive(Clone, Debug, PartialEq, Eq)]
pub struct ShaderStageInfo {
    pub module: u64,
    pub stage: u32,
    pub entry_name: String,
}

/// The stage `stage` of the pipeline, run from the entry point
/// `entry_name` of the shader module `shader_module`.
pub fn create_shader_stage_info(shader_module: u64, stage: u32, entry_name: &str) -> (info: ShaderStageInfo)
    ensures
        info.module == shader_module,
        info.stage == stage,
        info.entry_name@ == entry_name@,
{
    ShaderStageInfo { module: shader_module, stage, entry_name: entry_name.to_owned() }
}

/// The two shader stages of the pipeline, both from the one shader module
/// `shader_module`: first the vertex stage at `vertMain`, then the fragment
/// stage at `fragMain`.
pub fn pipeline_stages(shader_module: u64) -> (stages: Vec<ShaderStageInfo>)
    ensures
        stages@.len() == 2,
        stages@[0].module == shader_module,
        stages@[0].stage == SHADER_STAGE_VERTEX,
        stages@[0].entry_name@ == VERTEX_ENTRY_POINT@,
        stages@[1].module == shader_module,
        stages@[1].stage == SHADER_STAGE_FRAGMENT,
        stages@[1].entry_name@ == FRAGMENT_ENTRY_POINT@,
{
    let mut stages: Vec<ShaderStageInfo> = Vec::new();
    stages.push(create_shader_stage_info(shader_module, SHADER_STAGE_VERTEX, VERTEX_ENTRY_POINT));
    stages.push(create_shader_stage_info(shader_module, SHADER_STAGE_FRAGMENT, FRAGMENT_ENTRY_POINT));
    stages
}

/// What the renderer puts into its `vk::GraphicsPipelineCreateInfo`, apart
/// from the line width of 1.0 and the layout, which the pipeline gets from
/// the driver.
#[derive(Clone, Debug, PartialEq, Eq)]
pub struct PipelineSettings {
    pub stages: Vec<ShaderStageInfo>,
    pub dynamic_states: [i32; 2],
    pub topology: i32,
    pub viewport_count: u32,
    pub scissor_count: u32,
    pub polygon_mode: i32,
    pub cull_mode: u32,
    pub front_face: i32,
    pub rasterization_samples: u32,
    pub sample_shading_enable: bool,
    pub color_write_mask: u32,
    /// The format of the one colour attachment, for dynamic rendering.
    pub color_attachment_format: i32,
}

/// The graphics pipeline: the given shader stages, no vertex input, a
/// triangle list, one viewport and scissor set at draw time, filled
/// polygons with back faces culled and clockwise front faces, one sample,
/// no blending, and one colour attachment in `format`.
pub fn create_pipeline(stages: Vec<ShaderStageInfo>, format: i32) -> (settings: PipelineSettings)
    ensures
        settings.stages@ == stages@,
        settings.dynamic_states@ == seq![DYNAMIC_STATE_VIEWPORT, DYNAMIC_STATE_SCISSOR],
        settings.topology == PRIMITIVE_TOPOLOGY_TRIANGLE_LIST,
        settings.viewport_count == 1,
        settings.scissor_count == 1,
        settings.polygon_mode == POLYGON_MODE_FILL,
        settings.cull_mode == CULL_MODE_BACK,
        settings.front_face == FRONT_FACE_CLOCKWISE,
        settings.rasterization_samples == SAMPLE_COUNT_1,
        !settings.sample_shading_enable,
        settings.color_write_mask == COLOR_COMPONENT_RGBA,
        settings.color_attachment_format == format,
{
    PipelineSettings {
        stages,
        dynamic_states: [DYNAMIC_STATE_VIEWPORT, DYNAMIC_STATE_SCISSOR],
        topology: PRIMITIVE_TOPOLOGY_TRIANGLE_LIST,
        viewport_count: 1,
        scissor_count: 1,
        polygon_mode: POLYGON_MODE_FILL,
        cull_mode: CULL_MODE_BACK,
        front_face: FRONT_FACE_CLOCKWISE,
        rasterization_samples: SAMPLE_COUNT_1,
        sample_shading_enable: false,
        color_write_mask: COLOR_COMPONENT_RGBA,
        color_attachment_format: format,
    }
}

/// What the renderer puts into its `vk::CommandPoolCreateInfo` and
/// `vk::CommandBufferAllocateInfo`.
#[derive(Clone, Copy, Debug, PartialEq, Eq, Structural)]
pub struct CommandPoolSettings {
    pub queue_family_index: u32,
    pub flags: u32,
    pub command_buffer_count: u32,
}

/// A command pool on the queue family `queue_family_index` whose buffers
/// can be reset one by one, and `count` command buffers from it.
pub fn allocate_command_buffers(queue_family_index: u32, count: u32) -> (settings: CommandPoolSettings)
    ensures
        settings == (CommandPoolSettings {
            queue_family_index,
            flags: COMMAND_POOL_RESET_COMMAND_BUFFER,
            command_buffer_count: count,
        }),
{
    CommandPoolSettings { queue_family_index, flags: COMMAND_POOL_RESET_COMMAND_BUFFER, command_buffer_count: count }
}

/// The command pool and one command buffer for each of `image_count`
/// swapchain images.  A swapchain counts its images in a `u32`.
pub fn command_pool_for_images(queue_family_index: u32, image_count: usize) -> (settings: CommandPoolSettings)
    requires
        image_count <= u32::MAX,
    ensures
        settings == (CommandPoolSettings {
            queue_family_index,
            flags: COMMAND_POOL_RESET_COMMAND_BUFFER,
            command_buffer_count: image_count as u32,
        }),
        settings.command_buffer_count == image_count,
{
    allocate_command_buffers(queue_family_index, image_count as u32)
}

/// How the renderer obtains its queue and synchronization objects.
#[derive(Clone, Copy, Debug, PartialEq, Eq, Structural)]
pub struct SyncSettings {
    /// The index of the queue within the chosen family.
    pub queue_index: u32,
    /// The flags of the semaphores signalled when an image is acquired and
    /// when rendering is complete.
    pub semaphore_flags: u32,
    /// The flags of the draw fence.
    pub fence_flags: u32,
}

/// The first queue of the family, two plain semaphores, and a draw fence
/// created signalled, so that the first frame's wait returns at once.
pub fn sync_settings() -> (settings: SyncSettings)
    ensures
        settings == (SyncSettings { queue_index: 0, semaphore_flags: 0, fence_flags: FENCE_CREATE_SIGNALED }),
{
    SyncSettings { queue_index: 0, semaphore_flags: 0, fence_flags: FENCE_CREATE_SIGNALED }
}

/// One command recorded into a frame's command buffer.
#[derive(Clone, Copy, Debug, PartialEq, Eq, Structural)]
pub enum Command {
    /// `begin_command_buffer`.
    Begin,
    /// `cmd_pipeline_barrier2` with this one image barrier.
    PipelineBarrier(ImageBarrier),
    /// `cmd_begin_rendering` into one colour attachment, cleared to opaque
    /// black, over the render area from (0, 0) of size `render_area`.
    BeginRendering {
        image_view: u64,
        image_layout: i32,
        load_op: i32,
        store_op: i32,
        render_area: Extent2D,
        layer_count: u32,
    },
    /// `cmd_bind_pipeline`.
    BindPipeline { bind_point: i32, pipeline: u64 },
    /// `cmd_set_viewport` of viewport 0: from (0, 0), `width` by `height`,
    /// depths 0 to 1.
    SetViewport { width: u32, height: u32 },
    /// `cmd_set_scissor` of scissor 0: from (0, 0), of size `extent`.
    SetScissor { extent: Extent2D },
    /// `cmd_draw`.
    Draw { vertex_count: u32, instance_count: u32, first_vertex: u32, first_instance: u32 },
    /// `cmd_end_rendering`.
    EndRendering,
    /// `end_command_buffer`.
    End,
}

/// The commands that draw the triangle into the swapchain image `image`
/// through its view `image_view`, with the pipeline `pipeline`, over the
/// whole `extent`.
pub open spec fn spec_frame_commands(image: u64, image_view: u64, pipeline: u64, extent: Extent2D) -> Seq<Command> {
    seq![
        Command::Begin,
        Command::PipelineBarrier(spec_transition(image, IMAGE_LAYOUT_UNDEFINED,
            IMAGE_LAYOUT_COLOR_ATTACHMENT_OPTIMAL, ACCESS2_NONE, ACCESS2_COLOR_ATTACHMENT_WRITE,
            STAGE2_COLOR_ATTACHMENT_OUTPUT, STAGE2_COLOR_ATTACHMENT_OUTPUT)),
        Command::BeginRendering {
            image_view,
            image_layout: IMAGE_LAYOUT_COLOR_ATTACHMENT_OPTIMAL,
            load_op: ATTACHMENT_LOAD_OP_CLEAR,
            store_op: ATTACHMENT_STORE_OP_STORE,
            render_area: extent,
            layer_count: 1,
        },
        Command::BindPipeline { bind_point: PIPELINE_BIND_POINT_GRAPHICS, pipeline },
        Command::SetViewport { width: extent.width, height: extent.height },
        Command::SetScissor { extent },
        Command::Draw { vertex_count: 3, instance_count: 1, first_vertex: 0, first_instance: 0 },
        Command::EndRendering,
        Command::PipelineBarrier(spec_transition(image, IMAGE_LAYOUT_COLOR_ATTACHMENT_OPTIMAL,
            IMAGE_LAYOUT_PRESENT_SRC, ACCESS2_COLOR_ATTACHMENT_WRITE, ACCESS2_NONE,
            STAGE2_COLOR_ATTACHMENT_OUTPUT, STAGE2_BOTTOM_OF_PIPE)),
        Command::End,
    ]
}

/// The commands of one frame: move the image into the colour attachment
/// layout, render the triangle into it with dynamic rendering, and move it
/// into the layout for presentation.
pub fn frame_commands(image: u64, image_view: u64, pipeline: u64, extent: Extent2D) -> (commands: Vec<Command>)
    ensures
        commands@ == spec_frame_commands(image, image_view, pipeline, extent),
        commands@.len() == 10,
        commands@[4] == (Command::SetViewport { width: extent.width, height: extent.height }),
        commands@[5] == (Command::SetScissor { extent }),
{
    let mut commands: Vec<Command> = Vec::new();
    commands.push(Command::Begin);
    commands.push(Command::PipelineBarrier(transition_image_layout(
        image,
        IMAGE_LAYOUT_UNDEFINED,
        IMAGE_LAYOUT_COLOR_ATTACHMENT_OPTIMAL,
        ACCESS2_NONE,
        ACCESS2_COLOR_ATTACHMENT_WRITE,
        STAGE2_COLOR_ATTACHMENT_OUTPUT,
        STAGE2_COLOR_ATTACHMENT_OUTPUT,
    )));
    commands.push(Command::BeginRendering {
        image_view,
        image_layout: IMAGE_LAYOUT_COLOR_ATTACHMENT_OPTIMAL,
        load_op: ATTACHMENT_LOAD_OP_CLEAR,
        store_op: ATTACHMENT_STORE_OP_STORE,
        render_area: extent,
        layer_count: 1,
    });
    commands.push(Command::BindPipeline { bind_point: PIPELINE_BIND_POINT_GRAPHICS, pipeline });
    commands.push(Command::SetViewport { width: extent.width, height: extent.height });
    commands.push(Command::SetScissor { extent });
    commands.push(Command::Draw { vertex_count: 3, instance_count: 1, first_vertex: 0, first_instance: 0 });
    commands.push(Command::EndRendering);
    commands.push(Command::PipelineBarrier(transition_image_layout(
        image,
        IMAGE_LAYOUT_COLOR_ATTACHMENT_OPTIMAL,
        IMAGE_LAYOUT_PRESENT_SRC,
        ACCESS2_COLOR_ATTACHMENT_WRITE,
        ACCESS2_NONE,
        STAGE2_COLOR_ATTACHMENT_OUTPUT,
        STAGE2_BOTTOM_OF_PIPE,
    )));
    commands.push(Command::End);
    assert(commands@ == spec_frame_commands(image, image_view, pipeline, extent));
    commands
}

/// A frame's commands are bracketed by `Begin` and `End`; its first barrier
/// takes the image from an undefined layout to the colour attachment
/// layout in which it is rendered, and its last barrier takes it from that
/// same layout to the layout for presentation; its one draw, of three
/// vertices, falls between the start and the end of rendering.
pub proof fn lemma_frame_commands_well_bracketed(image: u64, image_view: u64, pipeline: u64, extent: Extent2D)
    ensures
        ({
            let c = spec_frame_commands(image, image_view, pipeline, extent);
            &&& c.len() == 10
            &&& c[0] == Command::Begin
            &&& c[9] == Command::End
            &&& c[1] matches Command::PipelineBarrier(first)
            &&& c[8] matches Command::PipelineBarrier(last)
            &&& first.image == image && last.image == image
            &&& first.old_layout == IMAGE_LAYOUT_UNDEFINED
            &&& first.new_layout == IMAGE_LAYOUT_COLOR_ATTACHMENT_OPTIMAL
            &&& last.old_layout == first.new_layout
            &&& last.new_layout == IMAGE_LAYOUT_PRESENT_SRC
            &&& c[2] matches Command::BeginRendering { image_layout, .. }
            &&& image_layout == first.new_layout
            &&& c[7] == Command::EndRendering
            &&& c[6] == (Command::Draw { vertex_count: 3, instance_count: 1, first_vertex: 0, first_instance: 0 })
            &&& forall|i: int| 0 <= i < c.len() && (#[trigger] c[i] is Draw) ==> 2 < i < 7
        }),
{
    let c = spec_frame_commands(image, image_view, pipeline, extent);
    assert forall|i: int| 0 <= i < c.len() && (#[trigger] c[i] is Draw) implies 2 < i < 7 by {
        if i == 0 || i == 1 || i == 2 || i == 3 || i == 4 || i == 5 || i == 7 || i == 8 || i == 9 {
            assert(!(c[i] is Draw));
        }
    }
}

/// A view describes the image it was asked for, in exactly the format it
/// was asked for: a 2D view of the whole colour image.
pub proof fn lemma_image_view_keeps_image_and_format(image: u64, format: i32)
    ensures
        spec_image_view(image, format).image == image,
        spec_image_view(image, format).format == format,
        spec_image_view(image, format).view_type == IMAGE_VIEW_TYPE_2D,
        spec_image_view(image, format).subresource_range.aspect_mask == IMAGE_ASPECT_COLOR,
        spec_image_view(image, format).subresource_range.level_count == 1,
        spec_image_view(image, format).subresource_range.layer_count == 1,
        forall|f1: i32, f2: i32| spec_image_view(image, f1) == spec_image_view(image, f2) ==> f1 == f2,
{
    assert forall|f1: i32, f2: i32| spec_image_view(image, f1) == spec_image_view(image, f2) implies f1 == f2 by {
        assert(spec_image_view(image, f1).format == f1);
        assert(spec_image_view(image, f2).format == f2);
    }
}

/// Every command of a frame uses the frame's inputs: the viewport, the
/// scissor and the render area all cover exactly the given extent, the
/// pipeline bound is the given one, rendering goes to the given view, and
/// both barriers transition the given image.
pub proof fn lemma_frame_commands_use_their_inputs(image: u64, image_view: u64, pipeline: u64, extent: Extent2D)
    ensures
        ({
            let c = spec_frame_commands(image, image_view, pipeline, extent);
            &&& exists|i: int| 0 <= i < c.len() && #[trigger] c[i] is SetViewport
            &&& forall|i: int| 0 <= i < c.len() && (#[trigger] c[i] is SetViewport)
                ==> c[i]->SetViewport_width == extent.width && c[i]->SetViewport_height == extent.height
            &&& forall|i: int| 0 <= i < c.len() && (#[trigger] c[i] is SetScissor) ==> c[i]->SetScissor_extent == extent
            &&& forall|i: int| 0 <= i < c.len() && (#[trigger] c[i] is BeginRendering)
                ==> c[i]->BeginRendering_render_area == extent && c[i]->BeginRendering_image_view == image_view
            &&& forall|i: int| 0 <= i < c.len() && (#[trigger] c[i] is BindPipeline)
                ==> c[i]->BindPipeline_pipeline == pipeline
            &&& forall|i: int| 0 <= i < c.len() && (#[trigger] c[i] is PipelineBarrier)
                ==> c[i]->PipelineBarrier_0.image == image
        }),
{
    let c = spec_frame_commands(image, image_view, pipeline, extent);
    assert(c[4] is SetViewport);
}

} // verus!
