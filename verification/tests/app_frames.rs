use triangle::app::{FrameAction, FrameEvent, FramePhase, ImageViewPlan, SetupHandles, VulkanApp};
use triangle::commands::create_image_view;
use triangle::commands::Command;
use triangle::swapchain::Extent2D;
use triangle::vk::STAGE_COLOR_ATTACHMENT_OUTPUT;

fn set_up_app() -> VulkanApp {
    let mut app = VulkanApp::new("Vulkan App: Triangle").unwrap();
    let mut views = ImageViewPlan::new(vec![301, 302, 303], 50);
    let mut next_view = 401;
    while let Some(_) = views.next_view() {
        views.add_view(next_view);
        next_view += 1;
    }
    assert!(views.is_complete());
    app.store_setup(SetupHandles {
        command_buffers: vec![101, 102, 103],
        swapchain: 200,
        views,
        pipeline: 500,
        extent: Extent2D { width: 1024, height: 768 },
        queue: 600,
        present_complete_semaphore: 701,
        render_complete_semaphore: 702,
        draw_fence: 800,
    });
    app
}

#[test]
fn new_app_is_not_initialized() {
    let app = VulkanApp::new("Vulkan App: Triangle").unwrap();
    assert_eq!(app.name, "Vulkan App: Triangle");
    assert!(!app.is_initialized());
    assert!(app.needs_setup());
    assert_eq!((app.queue, app.draw_fence), (0, 0));
}

#[test]
fn set_up_app_is_initialized() {
    let app = set_up_app();
    assert!(app.is_initialized());
    assert!(!app.needs_setup());
}

#[test]
fn redraw_runs_one_frame() {
    let app = set_up_app();
    let steps = [
        (FramePhase::Idle, FrameEvent::RedrawRequested, FramePhase::AwaitFence, FrameAction::WaitForFence { fence: 800 }),
        (FramePhase::AwaitFence, FrameEvent::Completed, FramePhase::AwaitReset, FrameAction::ResetFence { fence: 800 }),
        (
            FramePhase::AwaitReset,
            FrameEvent::Completed,
            FramePhase::AwaitImage,
            FrameAction::AcquireNextImage { swapchain: 200, signal_semaphore: 701 },
        ),
        (
            FramePhase::AwaitImage,
            FrameEvent::ImageAcquired { image_index: 2 },
            FramePhase::AwaitRecord { image_index: 2 },
            FrameAction::RecordCommands { command_buffer: 103, image_index: 2 },
        ),
        (
            FramePhase::AwaitRecord { image_index: 2 },
            FrameEvent::Completed,
            FramePhase::AwaitSubmit { image_index: 2 },
            FrameAction::Submit {
                queue: 600,
                wait_semaphore: 701,
                wait_stage: STAGE_COLOR_ATTACHMENT_OUTPUT,
                command_buffer: 103,
                signal_semaphore: 702,
                fence: 800,
            },
        ),
        (
            FramePhase::AwaitSubmit { image_index: 2 },
            FrameEvent::Completed,
            FramePhase::AwaitPresent,
            FrameAction::Present { queue: 600, wait_semaphore: 702, swapchain: 200, image_index: 2 },
        ),
        (FramePhase::AwaitPresent, FrameEvent::Completed, FramePhase::Idle, FrameAction::RequestRedraw),
    ];
    for (phase, event, next, action) in steps {
        assert!(app.accepts_event(phase, event));
        assert_eq!(app.frame_step(phase, event), (next, action));
    }
}

#[test]
fn close_and_other_events() {
    let app = VulkanApp::new("t").unwrap();
    assert!(app.accepts_event(FramePhase::Idle, FrameEvent::CloseRequested));
    assert_eq!(app.frame_step(FramePhase::Idle, FrameEvent::CloseRequested), (FramePhase::Idle, FrameAction::ExitLoop));
    assert_eq!(app.frame_step(FramePhase::Idle, FrameEvent::OtherWindowEvent), (FramePhase::Idle, FrameAction::Nothing));
    // Drawing needs the device and swapchain.
    assert!(!app.accepts_event(FramePhase::Idle, FrameEvent::RedrawRequested));
}

#[test]
fn out_of_range_image_is_not_accepted() {
    let app = set_up_app();
    assert!(!app.accepts_event(FramePhase::AwaitImage, FrameEvent::ImageAcquired { image_index: 3 }));
    assert!(app.accepts_event(FramePhase::AwaitImage, FrameEvent::ImageAcquired { image_index: 0 }));
    assert!(!app.accepts_event(FramePhase::AwaitFence, FrameEvent::RedrawRequested));
}

#[test]
fn recorded_commands_use_the_acquired_image() {
    let app = set_up_app();
    let commands = app.record_command_buffer(1);
    assert_eq!(commands.len(), 10);
    assert_eq!(commands[0], Command::Begin);
    match commands[1] {
        Command::PipelineBarrier(b) => assert_eq!(b.image, 302),
        _ => panic!("expected a barrier"),
    }
    match commands[2] {
        Command::BeginRendering { image_view, .. } => assert_eq!(image_view, 402),
        _ => panic!("expected rendering to begin"),
    }
    assert_eq!(commands[3], Command::BindPipeline { bind_point: 0, pipeline: 500 });
    assert_eq!(commands[9], Command::End);
}

#[test]
fn every_image_is_recordable_after_setup() {
    let app = set_up_app();
    for i in 0..3 {
        assert!(app.can_record_exec(i));
    }
    assert!(!app.can_record_exec(3));
    assert!(app.accepts_event(FramePhase::Idle, FrameEvent::RedrawRequested));
}

#[test]
fn consecutive_frames_wait_for_fence_before_each_submit() {
    let app = set_up_app();
    let mut actions = Vec::new();
    for image_index in [0u32, 1] {
        let mut phase = FramePhase::Idle;
        let mut event = FrameEvent::RedrawRequested;
        loop {
            assert!(app.accepts_event(phase, event));
            let (next, action) = app.frame_step(phase, event);
            actions.push(action);
            if next == FramePhase::Idle {
                break;
            }
            event = match action {
                FrameAction::AcquireNextImage { .. } => FrameEvent::ImageAcquired { image_index },
                _ => FrameEvent::Completed,
            };
            phase = next;
        }
    }
    assert_eq!(actions.len(), 14);
    let mut waited = false;
    for action in &actions {
        match action {
            FrameAction::WaitForFence { fence } => {
                assert_eq!(*fence, 800);
                waited = true;
            }
            FrameAction::RecordCommands { .. } => assert!(waited),
            FrameAction::Submit { fence, .. } => {
                assert!(waited);
                assert_eq!(*fence, 800);
                waited = false;
            }
            _ => {}
        }
    }
}

#[test]
fn view_plan_hands_out_one_view_per_image_in_order() {
    let mut plan = ImageViewPlan::new(vec![31, 32], 50);
    assert!(!plan.is_complete());
    assert_eq!(plan.next_view(), Some(create_image_view(31, 50)));
    plan.add_view(41);
    assert_eq!(plan.next_view(), Some(create_image_view(32, 50)));
    plan.add_view(42);
    assert_eq!(plan.next_view(), None);
    assert!(plan.is_complete());
    assert!(ImageViewPlan::new(vec![], 50).is_complete());
}

#[test]
fn setup_keeps_views_and_their_settings() {
    let app = set_up_app();
    assert_eq!(app.images, Some(vec![301, 302, 303]));
    assert_eq!(app.image_views, Some(vec![401, 402, 403]));
    assert_eq!(app.image_format, Some(50));
    assert_eq!(
        app.image_view_settings,
        Some(vec![create_image_view(301, 50), create_image_view(302, 50), create_image_view(303, 50)])
    );
}
