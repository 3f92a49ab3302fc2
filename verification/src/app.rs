//! The renderer's state and the decisions it takes for each window event.
//!
//! The live `ash` and `winit` objects are held by the program that drives
//! this library; [`VulkanApp`] holds what the decisions read: which objects
//! are alive, and the raw values of the Vulkan handles.  Drawing a frame
//! alternates between work that only the driver can do and decisions, so
//! it is a state machine: [`VulkanApp::frame_step`] takes the phase of the
//! frame and the latest event and gives the next phase and the action to
//! carry out.
use vstd::prelude::*;
use crate::commands::{create_image_view, frame_commands, spec_frame_commands, spec_image_view, Command, ImageViewSettings};
use crate::swapchain::Extent2D;
use crate::vk::STAGE_COLOR_ATTACHMENT_OUTPUT;

verus! {

/// `ash::LoadingError`, the error of loading the Vulkan library.
#[verifier::external_type_specification]
#[verifier::external_body]
pub struct ExLoadingError(ash::LoadingError);

/// The width of the window, in logical pixels.
pub const WINDOW_WIDTH: u32 = 1024;

/// The height of the window, in logical pixels.
pub const WINDOW_HEIGHT: u32 = 768;

/// The minor number of the Vulkan version that the renderer asks for.
pub const API_MINOR_VERSION: u32 = 4;

/// The entry point of the vertex shader.
pub const VERTEX_ENTRY_POINT: &'static str = "vertMain";

/// The entry point of the fragment shader.
pub const FRAGMENT_ENTRY_POINT: &'static str = "fragMain";

/// The renderer: which of its objects are alive, and its Vulkan handles.
pub struct VulkanApp {
    pub name: String,
    /// The window is open.
    pub window: bool,
    /// The Vulkan instance exists.
    pub instance: bool,
    /// The Vulkan library is loaded.
    pub entry: bool,
    /// The logical device exists.
    pub device: bool,
    pub command_buffers: Option<Vec<u64>>,
    pub swapchain: Option<u64>,
    /// The swapchain functions are loaded.
    pub swapchain_device: bool,
    pub images: Option<Vec<u64>>,
    pub image_views: Option<Vec<u64>>,
    /// The format of the swapchain images and their views.
    pub image_format: Option<i32>,
    /// What each image view was created from, in the order of the views.
    pub image_view_settings: Option<Vec<ImageViewSettings>>,
    pub pipeline: Option<u64>,
    pub extent: Option<Extent2D>,
    pub queue: u64,
    pub present_complete_semaphore: u64,
    pub render_complete_semaphore: u64,
    pub draw_fence: u64,
}

/// The image views of the swapchain images, created one at a time: the
/// plan hands out the settings of the view of each image in turn and takes
/// the view that the driver created from them.
pub struct ImageViewPlan {
    images: Vec<u64>,
    format: i32,
    views: Vec<u64>,
    settings: Vec<ImageViewSettings>,
}

impl ImageViewPlan {
    pub closed spec fn images(&self) -> Seq<u64> {
        self.images@
    }

    pub closed spec fn format(&self) -> i32 {
        self.format
    }

    /// The views created so far, in the order of the images.
    pub closed spec fn views(&self) -> Seq<u64> {
        self.views@
    }

    /// What each view so far was created from.
    pub closed spec fn settings(&self) -> Seq<ImageViewSettings> {
        self.settings@
    }

    /// View `k` was created from the settings of the view of image `k`.
    pub closed spec fn wf(&self) -> bool {
        &&& self.settings@.len() == self.views@.len()
        &&& self.views@.len() <= self.images@.len()
        &&& forall|k: int| 0 <= k < self.settings@.len()
            ==> #[trigger] self.settings@[k] == spec_image_view(self.images@[k], self.format)
    }

    /// Every image has its view.
    pub open spec fn complete(&self) -> bool {
        self.views().len() == self.images().len()
    }

    /// A plan for views of `images` in `format`, with no view created yet.
    pub fn new(images: Vec<u64>, format: i32) -> (plan: ImageViewPlan)
        ensures
            plan.wf(),
            plan.images() == images@,
            plan.format() == format,
            plan.views().len() == 0,
    {
        ImageViewPlan { images, format, views: Vec::new(), settings: Vec::new() }
    }

    /// The settings of the next view to create: that of the first image
    /// without a view, or none once every image has one.
    pub fn next_view(&self) -> (next: Option<ImageViewSettings>)
        requires
            self.wf(),
        ensures
            self.views().len() < self.images().len()
                ==> next == Some(spec_image_view(self.images()[self.views().len() as int], self.format())),
            self.views().len() == self.images().len() ==> next is None,
    {
        let n: usize = self.views.len();
        if n < self.images.len() {
            Some(create_image_view(self.images[n], self.format))
        } else {
            None
        }
    }

    /// Takes the view that the driver created from the settings that
    /// [`ImageViewPlan::next_view`] handed out.
    pub fn add_view(&mut self, view: u64)
        requires
            old(self).wf(),
            old(self).views().len() < old(self).images().len(),
        ensures
            final(self).wf(),
            final(self).images() == old(self).images(),
            final(self).format() == old(self).format(),
            final(self).views() == old(self).views().push(view),
    {
        let n: usize = self.views.len();
        let settings: ImageViewSettings = create_image_view(self.images[n], self.format);
        self.settings.push(settings);
        self.views.push(view);
    }

    /// Whether every image has its view.
    pub fn is_complete(&self) -> (done: bool)
        ensures
            done == self.complete(),
    {
        self.views.len() == self.images.len()
    }
}

/// The handles that setting up the renderer produced.
pub struct SetupHandles {
    pub command_buffers: Vec<u64>,
    pub swapchain: u64,
    /// The swapchain images with their views.
    pub views: ImageViewPlan,
    pub pipeline: u64,
    pub extent: Extent2D,
    pub queue: u64,
    pub present_complete_semaphore: u64,
    pub render_complete_semaphore: u64,
    pub draw_fence: u64,
}

/// Where a frame stands.
#[derive(Clone, Copy, Debug, PartialEq, Eq, Structural)]
pub enum FramePhase {
    /// No frame is under way.
    Idle,
    /// Waiting for the previous frame's fence.
    AwaitFence,
    /// Resetting the fence.
    AwaitReset,
    /// Acquiring the next swapchain image.
    AwaitImage,
    /// Recording the commands for the acquired image.
    AwaitRecord { image_index: u32 },
    /// Submitting the recorded commands.
    AwaitSubmit { image_index: u32 },
    /// Presenting the image.
    AwaitPresent,
}

/// What happened last.
#[derive(Clone, Copy, Debug, PartialEq, Eq, Structural)]
pub enum FrameEvent {
    /// The window was asked to close.
    CloseRequested,
    /// The window asks to be redrawn.
    RedrawRequested,
    /// Any other window event.
    OtherWindowEvent,
    /// The last action was carried out.
    Completed,
    /// The swapchain handed out the image at this index.
    ImageAcquired { image_index: u32 },
}

/// What to do next.
#[derive(Clone, Copy, Debug, PartialEq, Eq, Structural)]
pub enum FrameAction {
    /// Leave the event loop.
    ExitLoop,
    /// Nothing to do for this event.
    Nothing,
    /// Wait, without time limit, until the fence is signalled.
    WaitForFence { fence: u64 },
    /// Reset the fence to unsignalled.
    ResetFence { fence: u64 },
    /// Acquire the next image of the swapchain, without time limit,
    /// signalling the semaphore once the image is ready.
    AcquireNextImage { swapchain: u64, signal_semaphore: u64 },
    /// Record [`VulkanApp::record_command_buffer`] for the image into the
    /// command buffer.
    RecordCommands { command_buffer: u64, image_index: u32 },
    /// Submit the command buffer to the queue: it waits for the semaphore
    /// at the given pipeline stage, signals the other semaphore when done,
    /// and signals the fence.
    Submit {
        queue: u64,
        wait_semaphore: u64,
        wait_stage: u32,
        command_buffer: u64,
        signal_semaphore: u64,
        fence: u64,
    },
    /// Present the image to the swapchain once the semaphore is signalled.
    Present { queue: u64, wait_semaphore: u64, swapchain: u64, image_index: u32 },
    /// Ask the window for another redraw.
    RequestRedraw,
}

impl VulkanApp {
    /// A renderer named `name` with nothing set up yet and null handles.
    pub fn new(name: &str) -> (res: Result<VulkanApp, ash::LoadingError>)
        ensures
            res matches Ok(app) && {
                &&& app.name@ == name@
                &&& !app.window && !app.instance && !app.entry && !app.device
                &&& app.command_buffers is None
                &&& app.swapchain is None
                &&& !app.swapchain_device
                &&& app.images is None
                &&& app.image_views is None
                &&& app.image_format is None
                &&& app.image_view_settings is None
                &&& app.pipeline is None
                &&& app.extent is None
                &&& app.queue == 0
                &&& app.present_complete_semaphore == 0
                &&& app.render_complete_semaphore == 0
                &&& app.draw_fence == 0
            },
    {
        Ok(VulkanApp {
            name: name.to_owned(),
            window: false,
            instance: false,
            entry: false,
            device: false,
            command_buffers: None,
            swapchain: None,
            swapchain_device: false,
            images: None,
            image_views: None,
            image_format: None,
            image_view_settings: None,
            pipeline: None,
            extent: None,
            queue: 0,
            present_complete_semaphore: 0,
            render_complete_semaphore: 0,
            draw_fence: 0,
        })
    }

    pub open spec fn spec_is_initialized(&self) -> bool {
        self.window && self.instance && self.entry && self.device
    }

    /// The window, the Vulkan library, the instance and the device are all
    /// there.
    pub fn is_initialized(&self) -> (initialized: bool)
        ensures
            initialized == self.spec_is_initialized(),
    {
        self.window && self.instance && self.entry && self.device
    }

    /// The renderer sets itself up when it resumes without a window.
    pub fn needs_setup(&self) -> (needed: bool)
        ensures
            needed == !self.window,
    {
        !self.window
    }

    /// The renderer has one image view and one command buffer for each
    /// swapchain image, and view `k` was created from the settings of the
    /// view of image `k` in the swapchain's format.
    pub open spec fn one_per_image(&self) -> bool {
        &&& self.images matches Some(images)
        &&& self.image_views matches Some(views)
        &&& self.command_buffers matches Some(buffers)
        &&& self.image_view_settings matches Some(settings)
        &&& self.image_format matches Some(format)
        &&& views@.len() == images@.len()
        &&& buffers@.len() == images@.len()
        &&& settings@.len() == images@.len()
        &&& forall|k: int| 0 <= k < images@.len() ==> #[trigger] settings@[k] == spec_image_view(images@[k], format)
    }

    /// Takes in what setting up produced: the window, the Vulkan library,
    /// the instance, the device and the swapchain functions are alive, and
    /// the handles are stored.  Every swapchain image has its view and its
    /// command buffer, so afterwards the renderer has one of each per image,
    /// and every image the swapchain may hand out can be drawn into.  Drawing
    /// frames takes the renderer by shared reference, so it keeps all this.
    pub fn store_setup(&mut self, setup: SetupHandles)
        requires
            setup.views.wf(),
            setup.views.complete(),
            setup.command_buffers@.len() == setup.views.images().len(),
        ensures
            final(self).name == old(self).name,
            final(self).window && final(self).instance && final(self).entry && final(self).device,
            final(self).spec_is_initialized(),
            final(self).swapchain_device,
            final(self).command_buffers == Some(setup.command_buffers),
            final(self).swapchain == Some(setup.swapchain),
            final(self).images matches Some(images) && images@ == setup.views.images(),
            final(self).image_views matches Some(views) && views@ == setup.views.views(),
            final(self).image_format == Some(setup.views.format()),
            final(self).image_view_settings matches Some(settings) && settings@ == setup.views.settings(),
            final(self).pipeline == Some(setup.pipeline),
            final(self).extent == Some(setup.extent),
            final(self).queue == setup.queue,
            final(self).present_complete_semaphore == setup.present_complete_semaphore,
            final(self).render_complete_semaphore == setup.render_complete_semaphore,
            final(self).draw_fence == setup.draw_fence,
            final(self).one_per_image(),
            forall|i: u32| i < setup.views.images().len() ==> #[trigger] final(self).can_record(i),
            final(self).accepts(FramePhase::Idle, FrameEvent::RedrawRequested),
    {
        let SetupHandles {
            command_buffers,
            swapchain,
            views,
            pipeline,
            extent,
            queue,
            present_complete_semaphore,
            render_complete_semaphore,
            draw_fence,
        } = setup;
        let ImageViewPlan { images, format, views: image_views, settings } = views;
        self.entry = true;
        self.instance = true;
        self.window = true;
        self.command_buffers = Some(command_buffers);
        self.swapchain = Some(swapchain);
        self.swapchain_device = true;
        self.images = Some(images);
        self.image_views = Some(image_views);
        self.image_format = Some(format);
        self.image_view_settings = Some(settings);
        self.extent = Some(extent);
        self.pipeline = Some(pipeline);
        self.queue = queue;
        self.present_complete_semaphore = present_complete_semaphore;
        self.render_complete_semaphore = render_complete_semaphore;
        self.draw_fence = draw_fence;
        self.device = true;
    }

    /// The commands for the swapchain image at `image_index` can be
    /// recorded: the device, the pipeline and the extent are there, and
    /// the index is in range of the command buffers, images and views.
    pub open spec fn can_record(&self, image_index: u32) -> bool {
        &&& self.device
        &&& self.command_buffers matches Some(buffers) && image_index < buffers@.len()
        &&& self.images matches Some(images) && image_index < images@.len()
        &&& self.image_views matches Some(views) && image_index < views@.len()
        &&& self.extent is Some
        &&& self.pipeline is Some
    }

    /// The commands that draw a frame into the swapchain image at
    /// `image_index`.
    pub fn record_command_buffer(&self, image_index: u32) -> (commands: Vec<Command>)
        requires
            self.can_record(image_index),
        ensures
            commands@ == spec_frame_commands(
                self.images.unwrap()@[image_index as int],
                self.image_views.unwrap()@[image_index as int],
                self.pipeline.unwrap(),
                self.extent.unwrap(),
            ),
    {
        let index: usize = image_index as usize;
        let image: u64 = self.images.as_ref().unwrap()[index];
        let image_view: u64 = self.image_views.as_ref().unwrap()[index];
        let pipeline: u64 = self.pipeline.unwrap();
        let extent = self.extent.unwrap();
        frame_commands(image, image_view, pipeline, extent)
    }

    /// The frame machine takes `event` in `phase`: each phase waits for one
    /// kind of event, and the renderer's objects that the step uses must be
    /// there.
    pub open spec fn accepts(&self, phase: FramePhase, event: FrameEvent) -> bool {
        match phase {
            FramePhase::Idle => match event {
                FrameEvent::CloseRequested => true,
                FrameEvent::OtherWindowEvent => true,
                FrameEvent::RedrawRequested => self.device && self.swapchain is Some && self.swapchain_device,
                _ => false,
            },
            FramePhase::AwaitFence => event == FrameEvent::Completed,
            FramePhase::AwaitReset => event == FrameEvent::Completed && self.swapchain is Some,
            FramePhase::AwaitImage => match event {
                FrameEvent::ImageAcquired { image_index } => self.can_record(image_index),
                _ => false,
            },
            FramePhase::AwaitRecord { image_index } => event == FrameEvent::Completed && self.can_record(image_index),
            FramePhase::AwaitSubmit { image_index } => event == FrameEvent::Completed && self.swapchain is Some,
            FramePhase::AwaitPresent => event == FrameEvent::Completed && self.window,
        }
    }

    /// The next phase and the action for `event` in `phase`.
    pub open spec fn spec_frame_step(&self, phase: FramePhase, event: FrameEvent) -> (FramePhase, FrameAction) {
        match phase {
            FramePhase::Idle => match event {
                FrameEvent::CloseRequested => (FramePhase::Idle, FrameAction::ExitLoop),
                FrameEvent::RedrawRequested => (FramePhase::AwaitFence, FrameAction::WaitForFence { fence: self.draw_fence }),
                _ => (FramePhase::Idle, FrameAction::Nothing),
            },
            FramePhase::AwaitFence => (FramePhase::AwaitReset, FrameAction::ResetFence { fence: self.draw_fence }),
            FramePhase::AwaitReset => (
                FramePhase::AwaitImage,
                FrameAction::AcquireNextImage {
                    swapchain: self.swapchain.unwrap(),
                    signal_semaphore: self.present_complete_semaphore,
                },
            ),
            FramePhase::AwaitImage => match event {
                FrameEvent::ImageAcquired { image_index } => (
                    FramePhase::AwaitRecord { image_index },
                    FrameAction::RecordCommands {
                        command_buffer: self.command_buffers.unwrap()@[image_index as int],
                        image_index,
                    },
                ),
                _ => (phase, FrameAction::Nothing),
            },
            FramePhase::AwaitRecord { image_index } => (
                FramePhase::AwaitSubmit { image_index },
                FrameAction::Submit {
                    queue: self.queue,
                    wait_semaphore: self.present_complete_semaphore,
                    wait_stage: STAGE_COLOR_ATTACHMENT_OUTPUT,
                    command_buffer: self.command_buffers.unwrap()@[image_index as int],
                    signal_semaphore: self.render_complete_semaphore,
                    fence: self.draw_fence,
                },
            ),
            FramePhase::AwaitSubmit { image_index } => (
                FramePhase::AwaitPresent,
                FrameAction::Present {
                    queue: self.queue,
                    wait_semaphore: self.render_complete_semaphore,
                    swapchain: self.swapchain.unwrap(),
                    image_index,
                },
            ),
            FramePhase::AwaitPresent => (FramePhase::Idle, FrameAction::RequestRedraw),
        }
    }

    /// Whether the frame machine takes `event` in `phase`.
    pub fn accepts_event(&self, phase: FramePhase, event: FrameEvent) -> (accepted: bool)
        ensures
            accepted == self.accepts(phase, event),
    {
        match phase {
            FramePhase::Idle => match event {
                FrameEvent::CloseRequested => true,
                FrameEvent::OtherWindowEvent => true,
                FrameEvent::RedrawRequested => self.device && self.swapchain.is_some() && self.swapchain_device,
                _ => false,
            },
            FramePhase::AwaitFence => event == FrameEvent::Completed,
            FramePhase::AwaitReset => event == FrameEvent::Completed && self.swapchain.is_some(),
            FramePhase::AwaitImage => match event {
                FrameEvent::ImageAcquired { image_index } => self.can_record_exec(image_index),
                _ => false,
            },
            FramePhase::AwaitRecord { image_index } => event == FrameEvent::Completed && self.can_record_exec(image_index),
            FramePhase::AwaitSubmit { image_index } => event == FrameEvent::Completed && self.swapchain.is_some(),
            FramePhase::AwaitPresent => event == FrameEvent::Completed && self.window,
        }
    }

    /// Whether the commands for the image at `image_index` can be recorded.
    pub fn can_record_exec(&self, image_index: u32) -> (possible: bool)
        ensures
            possible == self.can_record(image_index),
    {
        let index: usize = image_index as usize;
        self.device
            && match &self.command_buffers { Some(buffers) => index < buffers.len(), None => false }
            && match &self.images { Some(images) => index < images.len(), None => false }
            && match &self.image_views { Some(views) => index < views.len(), None => false }
            && self.extent.is_some()
            && self.pipeline.is_some()
    }

    /// One step of drawing: the next phase of the frame and the action to
    /// carry out for `event` in `phase`.
    pub fn frame_step(&self, phase: FramePhase, event: FrameEvent) -> (step: (FramePhase, FrameAction))
        requires
            self.accepts(phase, event),
        ensures
            step == self.spec_frame_step(phase, event),
    {
        match phase {
            FramePhase::Idle => match event {
                FrameEvent::CloseRequested => (FramePhase::Idle, FrameAction::ExitLoop),
                FrameEvent::RedrawRequested => (FramePhase::AwaitFence, FrameAction::WaitForFence { fence: self.draw_fence }),
                _ => (FramePhase::Idle, FrameAction::Nothing),
            },
            FramePhase::AwaitFence => (FramePhase::AwaitReset, FrameAction::ResetFence { fence: self.draw_fence }),
            FramePhase::AwaitReset => (
                FramePhase::AwaitImage,
                FrameAction::AcquireNextImage {
                    swapchain: self.swapchain.unwrap(),
                    signal_semaphore: self.present_complete_semaphore,
                },
            ),
            FramePhase::AwaitImage => match event {
                FrameEvent::ImageAcquired { image_index } => (
                    FramePhase::AwaitRecord { image_index },
                    FrameAction::RecordCommands {
                        command_buffer: self.command_buffers.as_ref().unwrap()[image_index as usize],
                        image_index,
                    },
                ),
                _ => (phase, FrameAction::Nothing),
            },
            FramePhase::AwaitRecord { image_index } => (
                FramePhase::AwaitSubmit { image_index },
                FrameAction::Submit {
                    queue: self.queue,
                    wait_semaphore: self.present_complete_semaphore,
                    wait_stage: STAGE_COLOR_ATTACHMENT_OUTPUT,
                    command_buffer: self.command_buffers.as_ref().unwrap()[image_index as usize],
                    signal_semaphore: self.render_complete_semaphore,
                    fence: self.draw_fence,
                },
            ),
            FramePhase::AwaitSubmit { image_index } => (
                FramePhase::AwaitPresent,
                FrameAction::Present {
                    queue: self.queue,
                    wait_semaphore: self.render_complete_semaphore,
                    swapchain: self.swapchain.unwrap(),
                    image_index,
                },
            ),
            FramePhase::AwaitPresent => (FramePhase::Idle, FrameAction::RequestRedraw),
        }
    }
}

/// A redraw runs one whole frame, whatever image the swapchain hands out:
/// it waits for the fence of the previous frame, resets it, acquires an
/// image and has that signal the present-complete semaphore, records the
/// command buffer of that image and submits it waiting on that semaphore,
/// signalling the render-complete semaphore and the fence, presents that
/// same image once the render-complete semaphore is signalled, asks for
/// the next redraw, and is idle again.
pub proof fn lemma_redraw_cycle(app: VulkanApp, image_index: u32)
    requires
        app.accepts(FramePhase::Idle, FrameEvent::RedrawRequested),
        app.can_record(image_index),
        app.window,
    ensures
        app.spec_frame_step(FramePhase::Idle, FrameEvent::RedrawRequested)
            == (FramePhase::AwaitFence, FrameAction::WaitForFence { fence: app.draw_fence }),
        app.accepts(FramePhase::AwaitFence, FrameEvent::Completed),
        app.spec_frame_step(FramePhase::AwaitFence, FrameEvent::Completed)
            == (FramePhase::AwaitReset, FrameAction::ResetFence { fence: app.draw_fence }),
        app.accepts(FramePhase::AwaitReset, FrameEvent::Completed),
        app.spec_frame_step(FramePhase::AwaitReset, FrameEvent::Completed) == (
            FramePhase::AwaitImage,
            FrameAction::AcquireNextImage {
                swapchain: app.swapchain.unwrap(),
                signal_semaphore: app.present_complete_semaphore,
            },
        ),
        app.accepts(FramePhase::AwaitImage, FrameEvent::ImageAcquired { image_index }),
        app.spec_frame_step(FramePhase::AwaitImage, FrameEvent::ImageAcquired { image_index }) == (
            FramePhase::AwaitRecord { image_index },
            FrameAction::RecordCommands {
                command_buffer: app.command_buffers.unwrap()@[image_index as int],
                image_index,
            },
        ),
        app.accepts(FramePhase::AwaitRecord { image_index }, FrameEvent::Completed),
        app.spec_frame_step(FramePhase::AwaitRecord { image_index }, FrameEvent::Completed) == (
            FramePhase::AwaitSubmit { image_index },
            FrameAction::Submit {
                queue: app.queue,
                wait_semaphore: app.present_complete_semaphore,
                wait_stage: STAGE_COLOR_ATTACHMENT_OUTPUT,
                command_buffer: app.command_buffers.unwrap()@[image_index as int],
                signal_semaphore: app.render_complete_semaphore,
                fence: app.draw_fence,
            },
        ),
        app.accepts(FramePhase::AwaitSubmit { image_index }, FrameEvent::Completed),
        app.spec_frame_step(FramePhase::AwaitSubmit { image_index }, FrameEvent::Completed) == (
            FramePhase::AwaitPresent,
            FrameAction::Present {
                queue: app.queue,
                wait_semaphore: app.render_complete_semaphore,
                swapchain: app.swapchain.unwrap(),
                image_index,
            },
        ),
        app.accepts(FramePhase::AwaitPresent, FrameEvent::Completed),
        app.spec_frame_step(FramePhase::AwaitPresent, FrameEvent::Completed)
            == (FramePhase::Idle, FrameAction::RequestRedraw),
{
}

/// Between frames, a close request ends the event loop and any event other
/// than a redraw request changes nothing.
pub proof fn lemma_idle_events(app: VulkanApp)
    ensures
        app.accepts(FramePhase::Idle, FrameEvent::CloseRequested),
        app.spec_frame_step(FramePhase::Idle, FrameEvent::CloseRequested) == (FramePhase::Idle, FrameAction::ExitLoop),
        app.accepts(FramePhase::Idle, FrameEvent::OtherWindowEvent),
        app.spec_frame_step(FramePhase::Idle, FrameEvent::OtherWindowEvent) == (FramePhase::Idle, FrameAction::Nothing),
{
}

/// The frame machine never returns to being idle in the middle of a frame
/// except by presenting: from any phase but the last, the next phase is
/// not idle, and only the phase after submitting leads back to idle, by
/// asking for a redraw.
pub proof fn lemma_frame_only_ends_after_present(app: VulkanApp, phase: FramePhase, event: FrameEvent)
    requires
        app.accepts(phase, event),
        phase != FramePhase::Idle,
    ensures
        app.spec_frame_step(phase, event).0 == FramePhase::Idle
            <==> phase == FramePhase::AwaitPresent,
        app.spec_frame_step(phase, event).0 == FramePhase::Idle
            ==> app.spec_frame_step(phase, event).1 == FrameAction::RequestRedraw,
{
}

/// The actions that the frame machine takes for `events`, one after the
/// other, starting in `phase`.
pub open spec fn run_actions(app: VulkanApp, phase: FramePhase, events: Seq<FrameEvent>) -> Seq<FrameAction>
    decreases events.len(),
{
    if events.len() == 0 {
        Seq::empty()
    } else {
        let step = app.spec_frame_step(phase, events[0]);
        seq![step.1] + run_actions(app, step.0, events.drop_first())
    }
}

/// The frame machine takes each of `events` in turn, starting in `phase`.
pub open spec fn run_accepted(app: VulkanApp, phase: FramePhase, events: Seq<FrameEvent>) -> bool
    decreases events.len(),
{
    events.len() == 0 || {
        &&& app.accepts(phase, events[0])
        &&& run_accepted(app, app.spec_frame_step(phase, events[0]).0, events.drop_first())
    }
}

/// The action records or submits a command buffer.
pub open spec fn uses_command_buffer(action: FrameAction) -> bool {
    action is RecordCommands || action is Submit
}

/// No action strictly between `lo` and `hi` submits work.
pub open spec fn no_submit_between(actions: Seq<FrameAction>, lo: int, hi: int) -> bool {
    forall|k: int| lo < k < hi && 0 <= k < actions.len() ==> !(#[trigger] actions[k] is Submit)
}

/// Some action before `j` waits for `fence`, and no work was submitted
/// between that wait and `j`.
pub open spec fn waited_since_last_submit(actions: Seq<FrameAction>, fence: u64, j: int) -> bool {
    exists|i: int|
        0 <= i < j && #[trigger] actions[i] == (FrameAction::WaitForFence { fence }) && no_submit_between(actions, i, j)
}

/// In `phase` the frame has already asked to wait for the fence and has
/// not submitted since.
pub open spec fn fence_waited_in(phase: FramePhase) -> bool {
    ||| phase == FramePhase::AwaitFence
    ||| phase == FramePhase::AwaitReset
    ||| phase == FramePhase::AwaitImage
    ||| phase is AwaitRecord
}

proof fn lemma_run_waits_general(app: VulkanApp, phase: FramePhase, events: Seq<FrameEvent>)
    requires
        run_accepted(app, phase, events),
    ensures
        forall|j: int| 0 <= j < run_actions(app, phase, events).len()
            && uses_command_buffer(#[trigger] run_actions(app, phase, events)[j])
            ==> waited_since_last_submit(run_actions(app, phase, events), app.draw_fence, j)
                || (fence_waited_in(phase) && no_submit_between(run_actions(app, phase, events), -1, j)),
    decreases events.len(),
{
    if events.len() > 0 {
        let step = app.spec_frame_step(phase, events[0]);
        let rest_events = events.drop_first();
        let rest = run_actions(app, step.0, rest_events);
        let actions = run_actions(app, phase, events);
        assert(actions == seq![step.1] + rest);
        lemma_run_waits_general(app, step.0, rest_events);
        assert forall|j: int| 0 <= j < actions.len() && uses_command_buffer(#[trigger] actions[j])
            implies waited_since_last_submit(actions, app.draw_fence, j)
                || (fence_waited_in(phase) && no_submit_between(actions, -1, j)) by {
            if j == 0 {
                assert(actions[0] == step.1);
                assert(fence_waited_in(phase));
            } else {
                assert(actions[j] == rest[j - 1]);
                assert(uses_command_buffer(rest[j - 1]));
                if waited_since_last_submit(rest, app.draw_fence, j - 1) {
                    let i = choose|i: int|
                        0 <= i < j - 1 && #[trigger] rest[i] == (FrameAction::WaitForFence { fence: app.draw_fence })
                            && no_submit_between(rest, i, j - 1);
                    assert(actions[i + 1] == rest[i]);
                    assert forall|k: int| i + 1 < k < j && 0 <= k < actions.len()
                        implies !(#[trigger] actions[k] is Submit) by {
                        assert(actions[k] == rest[k - 1]);
                    }
                    assert(waited_since_last_submit(actions, app.draw_fence, j));
                } else {
                    assert(fence_waited_in(step.0) && no_submit_between(rest, -1, j - 1));
                    if step.1 == (FrameAction::WaitForFence { fence: app.draw_fence }) {
                        assert forall|k: int| 0 < k < j && 0 <= k < actions.len()
                            implies !(#[trigger] actions[k] is Submit) by {
                            assert(actions[k] == rest[k - 1]);
                        }
                        assert(actions[0] == step.1);
                        assert(waited_since_last_submit(actions, app.draw_fence, j));
                    } else {
                        assert(fence_waited_in(phase));
                        assert(!(step.1 is Submit));
                        assert forall|k: int| -1 < k < j && 0 <= k < actions.len()
                            implies !(#[trigger] actions[k] is Submit) by {
                            if k == 0 {
                                assert(actions[0] == step.1);
                            } else {
                                assert(actions[k] == rest[k - 1]);
                            }
                        }
                    }
                }
            }
        }
    }
}

/// Across any run of frames from idle, every recording and every
/// submission of a command buffer comes after a wait for the draw fence
/// with no submission in between.  Each submission signals that same fence,
/// so at most one submission is in flight, and no command buffer is
/// recorded again while the work submitted before is pending.
pub proof fn lemma_runs_wait_for_fence(app: VulkanApp, events: Seq<FrameEvent>)
    requires
        run_accepted(app, FramePhase::Idle, events),
    ensures
        forall|j: int| 0 <= j < run_actions(app, FramePhase::Idle, events).len()
            && uses_command_buffer(#[trigger] run_actions(app, FramePhase::Idle, events)[j])
            ==> waited_since_last_submit(run_actions(app, FramePhase::Idle, events), app.draw_fence, j),
        forall|j: int| 0 <= j < run_actions(app, FramePhase::Idle, events).len()
            && #[trigger] run_actions(app, FramePhase::Idle, events)[j] is Submit
            ==> run_actions(app, FramePhase::Idle, events)[j]->Submit_fence == app.draw_fence,
{
    lemma_run_waits_general(app, FramePhase::Idle, events);
    lemma_run_fences(app, FramePhase::Idle, events);
}

proof fn lemma_run_fences(app: VulkanApp, phase: FramePhase, events: Seq<FrameEvent>)
    ensures
        forall|j: int| 0 <= j < run_actions(app, phase, events).len()
            && #[trigger] run_actions(app, phase, events)[j] is Submit
            ==> run_actions(app, phase, events)[j]->Submit_fence == app.draw_fence,
    decreases events.len(),
{
    if events.len() > 0 {
        let step = app.spec_frame_step(phase, events[0]);
        let rest = run_actions(app, step.0, events.drop_first());
        let actions = run_actions(app, phase, events);
        assert(actions == seq![step.1] + rest);
        lemma_run_fences(app, step.0, events.drop_first());
        assert forall|j: int| 0 <= j < actions.len() && #[trigger] actions[j] is Submit
            implies actions[j]->Submit_fence == app.draw_fence by {
            if j > 0 {
                assert(actions[j] == rest[j - 1]);
            }
        }
    }
}

} // verus!
