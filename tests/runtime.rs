use alchemy_framework::add_one;
use alchemy_framework::device::{
    BindGroupLayout, BindingKind, GpuDeviceContext, LayoutEntry, PhysicalSize, PipelineError,
    PresentMode, ShaderStage, TextureFormat, RENDER_ATTACHMENT,
};
use alchemy_framework::dispatcher::{
    escape_event, Command, DeviceInput, Dispatcher, ElementState, KeyCode, KeyInput, LoopSignal,
    Phase, PlatformEvent, WindowEvent,
};
use alchemy_framework::frame::{
    handle_render_result, layouts_equal, plan_frame, FrameAction, FrameError, RenderCommand,
    RenderError,
};
use alchemy_framework::resource::{CreateError, GpuResourceObject, WriteError};

fn context(width: u32, height: u32) -> GpuDeviceContext {
    GpuDeviceContext::new(
        PhysicalSize::new(width, height),
        TextureFormat::Bgra8UnormSrgb,
        PresentMode::Fifo,
    )
    .unwrap()
}

fn ready_context(width: u32, height: u32) -> GpuDeviceContext {
    let mut ctx = context(width, height);
    ctx.init_pipeline(vec![BindGroupLayout::uniform()], vec![3, 2, 35, 7], vec![3, 2, 35, 7])
        .unwrap();
    ctx
}

fn running() -> Dispatcher {
    let mut d = Dispatcher::new();
    assert_eq!(d.start(1_000), vec![Command::Load]);
    d
}

fn own(event: WindowEvent) -> PlatformEvent {
    PlatformEvent::Window { own: true, event }
}

fn escape() -> KeyInput {
    KeyInput { key: Some(KeyCode::Escape), state: ElementState::Pressed }
}

#[test]
fn it_works() {
    assert_eq!(2 + 2, 4);
}

#[test]
fn add_one_adds_one() {
    assert_eq!(add_one(41), 42);
    assert_eq!(add_one(-1), 0);
}

#[test]
fn new_context_matches_size() {
    let ctx = context(320, 800);
    assert_eq!(ctx.size, PhysicalSize::new(320, 800));
    assert_eq!(ctx.sc_desc.width, 320);
    assert_eq!(ctx.sc_desc.height, 800);
    assert_eq!(ctx.sc_desc.usage, RENDER_ATTACHMENT);
    assert_eq!(ctx.depth.width, 320);
    assert_eq!(ctx.depth.height, 800);
    assert_eq!(ctx.depth.format, TextureFormat::Depth32Float);
    assert!(ctx.pipeline.is_none());
}

#[test]
fn new_context_refuses_zero_size() {
    let r = GpuDeviceContext::new(PhysicalSize::new(0, 600), TextureFormat::Bgra8Unorm, PresentMode::Fifo);
    assert!(r.is_none());
}

#[test]
fn resize_records_requested_size() {
    let mut ctx = context(800, 600);
    assert!(ctx.resize(PhysicalSize::new(1024, 768)));
    assert_eq!(ctx.size, PhysicalSize::new(1024, 768));
    assert_eq!((ctx.sc_desc.width, ctx.sc_desc.height), (1024, 768));
    assert_eq!((ctx.depth.width, ctx.depth.height), (1024, 768));
    assert_eq!(ctx.sc_desc.format, TextureFormat::Bgra8UnormSrgb);
    assert_eq!(ctx.sc_desc.present_mode, PresentMode::Fifo);
}

#[test]
fn resize_twice_is_resize_once() {
    let mut ctx = context(800, 600);
    ctx.resize(PhysicalSize::new(300, 200));
    let once = (ctx.size, ctx.sc_desc, ctx.depth);
    ctx.resize(PhysicalSize::new(300, 200));
    assert_eq!((ctx.size, ctx.sc_desc, ctx.depth), once);
}

#[test]
fn resize_to_zero_is_refused() {
    let mut ctx = context(800, 600);
    assert!(!ctx.resize(PhysicalSize::new(0, 0)));
    assert!(!ctx.resize(PhysicalSize::new(640, 0)));
    assert_eq!(ctx.size, PhysicalSize::new(800, 600));
    assert_eq!((ctx.sc_desc.width, ctx.sc_desc.height), (800, 600));
    assert_eq!((ctx.depth.width, ctx.depth.height), (800, 600));
}

#[test]
fn pipeline_is_built_once() {
    let mut ctx = context(800, 600);
    assert_eq!(ctx.init_pipeline(vec![BindGroupLayout::uniform()], vec![1; 8], vec![2; 8]), Ok(()));
    let p = ctx.pipeline.as_ref().unwrap();
    assert_eq!(p.layouts.len(), 1);
    assert_eq!(p.vertex_bytecode, vec![1; 8]);
    assert_eq!(p.fragment_bytecode, vec![2; 8]);
    assert_eq!(
        ctx.init_pipeline(vec![BindGroupLayout::uniform()], vec![9; 4], vec![9; 4]),
        Err(PipelineError::AlreadyInitialized)
    );
    assert_eq!(ctx.pipeline.as_ref().unwrap().vertex_bytecode, vec![1; 8]);
}

#[test]
fn pipeline_refuses_unsupported_layout() {
    let mut ctx = context(800, 600);
    let fragment_visible = BindGroupLayout {
        entries: vec![LayoutEntry {
            binding: 0,
            visibility: ShaderStage::Fragment,
            kind: BindingKind::UniformBuffer,
            has_dynamic_offset: false,
        }],
    };
    assert!(!fragment_visible.is_supported());
    assert!(BindGroupLayout::uniform().is_supported());
    assert_eq!(
        ctx.init_pipeline(vec![BindGroupLayout::uniform(), fragment_visible], vec![], vec![]),
        Err(PipelineError::UnsupportedLayout)
    );
    assert!(ctx.pipeline.is_none());
    let two_slots = BindGroupLayout {
        entries: vec![LayoutEntry {
            binding: 0,
            visibility: ShaderStage::Vertex,
            kind: BindingKind::UniformBuffer,
            has_dynamic_offset: false,
        }; 2],
    };
    assert!(!two_slots.is_supported());
    let dynamic = BindGroupLayout {
        entries: vec![LayoutEntry {
            binding: 0,
            visibility: ShaderStage::Vertex,
            kind: BindingKind::UniformBuffer,
            has_dynamic_offset: true,
        }],
    };
    assert!(!dynamic.is_supported());
}

#[test]
fn resource_write_replaces_contents() {
    let ctx = ready_context(800, 600);
    let mut obj =
        GpuResourceObject::new(BindGroupLayout::uniform(), vec![0; 8], 0, "camera".to_string()).unwrap();
    assert_eq!(obj.byte_len(), 8);
    assert_eq!(obj.binding(), 0);
    assert_eq!(obj.label(), "camera");
    assert_eq!(obj.write(&ctx, &[1, 2, 3, 4, 5, 6, 7, 8]), Ok(()));
    assert_eq!(obj.contents(), &[1, 2, 3, 4, 5, 6, 7, 8]);
    assert_eq!(obj.byte_len(), 8);
}

#[test]
fn resource_write_refuses_other_length() {
    let ctx = ready_context(800, 600);
    let mut obj =
        GpuResourceObject::new(BindGroupLayout::uniform(), vec![7; 4], 0, "camera".to_string()).unwrap();
    assert_eq!(obj.write(&ctx, &[1, 2, 3]), Err(WriteError::SizeMismatch));
    assert_eq!(obj.write(&ctx, &[1, 2, 3, 4, 5]), Err(WriteError::SizeMismatch));
    assert_eq!(obj.contents(), &[7, 7, 7, 7]);
}

#[test]
fn resource_write_needs_pipeline() {
    let ctx = context(800, 600);
    let mut obj =
        GpuResourceObject::new(BindGroupLayout::uniform(), vec![7; 4], 0, "camera".to_string()).unwrap();
    assert_eq!(obj.write(&ctx, &[1, 2, 3, 4]), Err(WriteError::PipelineNotReady));
    assert_eq!(obj.contents(), &[7, 7, 7, 7]);
}

#[test]
fn resource_needs_binding_in_layout() {
    let r = GpuResourceObject::new(BindGroupLayout::uniform(), vec![0; 4], 1, "light".to_string());
    assert_eq!(r.err(), Some(CreateError::BindingNotInLayout));
}

#[test]
fn resource_objects_do_not_share_contents() {
    let ctx = ready_context(800, 600);
    let layout = BindGroupLayout::uniform();
    let mut a = GpuResourceObject::new(layout.clone(), vec![0; 4], 0, "a".to_string()).unwrap();
    let mut b = GpuResourceObject::new(layout, vec![0; 4], 0, "b".to_string()).unwrap();
    assert_eq!(a.write(&ctx, &[9, 9, 9, 9]), Ok(()));
    assert_eq!(b.contents(), &[0, 0, 0, 0]);
    assert_eq!(b.write(&ctx, &[5, 6, 7, 8]), Ok(()));
    assert_eq!(a.contents(), &[9, 9, 9, 9]);
}

#[test]
fn frame_plan_binds_each_resource() {
    let ctx = ready_context(800, 600);
    let obj = GpuResourceObject::new(BindGroupLayout::uniform(), vec![0; 64], 0, "camera".to_string())
        .unwrap();
    let plan = plan_frame(&ctx, &[&obj], 36, 1).unwrap();
    assert_eq!(
        plan,
        vec![
            RenderCommand::AcquireTarget,
            RenderCommand::BeginPass,
            RenderCommand::SetPipeline,
            RenderCommand::SetBindGroup(0),
            RenderCommand::Draw { vertices: 36, instances: 1 },
            RenderCommand::Submit,
        ]
    );
}

#[test]
fn frame_plan_errors() {
    let obj = || {
        GpuResourceObject::new(BindGroupLayout::uniform(), vec![0; 16], 0, "camera".to_string()).unwrap()
    };
    let bare = context(800, 600);
    assert_eq!(plan_frame(&bare, &[&obj()], 3, 1), Err(RenderError::PipelineNotReady));
    let ctx = ready_context(800, 600);
    assert_eq!(plan_frame(&ctx, &[], 3, 1), Err(RenderError::ResourceCountMismatch));
    assert_eq!(plan_frame(&ctx, &[&obj(), &obj()], 3, 1), Err(RenderError::ResourceCountMismatch));
    let other = BindGroupLayout {
        entries: vec![LayoutEntry {
            binding: 0,
            visibility: ShaderStage::VertexFragment,
            kind: BindingKind::UniformBuffer,
            has_dynamic_offset: false,
        }],
    };
    assert!(!layouts_equal(&other, &BindGroupLayout::uniform()));
    let foreign = GpuResourceObject::new(other, vec![0; 16], 0, "x".to_string()).unwrap();
    assert_eq!(plan_frame(&ctx, &[&foreign], 3, 1), Err(RenderError::LayoutMismatch));
}

#[test]
fn lost_frame_rebuilds_at_recorded_size() {
    let mut ctx = context(800, 600);
    ctx.resize(PhysicalSize::new(640, 480));
    let action = handle_render_result(&mut ctx, Err(FrameError::Lost));
    assert_eq!(action, FrameAction::Recreated(PhysicalSize::new(640, 480)));
    assert_eq!((ctx.sc_desc.width, ctx.sc_desc.height), (640, 480));
    assert_eq!((ctx.depth.width, ctx.depth.height), (640, 480));
}

#[test]
fn other_frame_statuses() {
    let mut ctx = context(800, 600);
    assert_eq!(handle_render_result(&mut ctx, Ok(())), FrameAction::Presented);
    assert_eq!(handle_render_result(&mut ctx, Err(FrameError::Outdated)), FrameAction::Skipped);
    assert_eq!(handle_render_result(&mut ctx, Err(FrameError::Timeout)), FrameAction::Skipped);
    assert_eq!(handle_render_result(&mut ctx, Err(FrameError::OutOfMemory)), FrameAction::Terminate);
    assert_eq!(ctx.size, PhysicalSize::new(800, 600));
}

#[test]
fn start_loads_once() {
    let mut d = Dispatcher::new();
    assert_eq!(d.state().phase, Phase::Created);
    assert_eq!(d.start(5), vec![Command::Load]);
    assert_eq!(d.state().phase, Phase::Running);
    assert_eq!(d.state().last_draw_micros, 5);
    assert_eq!(d.start(9), vec![]);
    assert_eq!(d.state().last_draw_micros, 5);
}

#[test]
fn events_before_start_give_nothing() {
    let mut d = Dispatcher::new();
    let mut ctx = context(800, 600);
    let step = d.dispatch(&mut ctx, PlatformEvent::RedrawReady { now_micros: 10 });
    assert!(step.commands.is_empty());
    assert_eq!(step.signal, LoopSignal::Continue);
}

#[test]
fn redraw_updates_then_draws() {
    let mut d = running();
    let mut ctx = context(800, 600);
    let step = d.dispatch(&mut ctx, PlatformEvent::RedrawReady { now_micros: 17_667 });
    assert_eq!(step.commands, vec![Command::Update { delta_micros: 16_667 }, Command::Draw]);
    assert_eq!(step.signal, LoopSignal::Continue);
    let step = d.dispatch(&mut ctx, PlatformEvent::RedrawReady { now_micros: 20_000 });
    assert_eq!(step.commands, vec![Command::Update { delta_micros: 2_333 }, Command::Draw]);
    let step = d.dispatch(&mut ctx, PlatformEvent::RedrawReady { now_micros: 19_000 });
    assert_eq!(step.commands, vec![Command::Update { delta_micros: 0 }, Command::Draw]);
}

#[test]
fn cleared_queue_requests_redraw() {
    let mut d = running();
    let mut ctx = context(800, 600);
    let step = d.dispatch(&mut ctx, PlatformEvent::MainEventsCleared);
    assert_eq!(step.commands, vec![Command::RequestRedraw]);
}

#[test]
fn device_input_is_forwarded() {
    let mut d = running();
    let mut ctx = context(800, 600);
    let key = DeviceInput::Key(KeyInput { key: Some(KeyCode::Other(17)), state: ElementState::Pressed });
    assert_eq!(d.dispatch(&mut ctx, PlatformEvent::Device(key)).commands, vec![Command::Input(key)]);
    let click = DeviceInput::Button { button: 1, state: ElementState::Pressed };
    assert_eq!(d.dispatch(&mut ctx, PlatformEvent::Device(click)).commands, vec![Command::Input(click)]);
    let release = DeviceInput::Key(KeyInput { key: Some(KeyCode::Escape), state: ElementState::Released });
    assert_eq!(d.dispatch(&mut ctx, PlatformEvent::Device(release)).commands, vec![Command::Input(release)]);
}

#[test]
fn escape_is_intercepted() {
    let mut d = running();
    let mut ctx = context(800, 600);
    let event = PlatformEvent::Device(DeviceInput::Key(escape()));
    assert!(escape_event(&event));
    let step = d.dispatch(&mut ctx, event);
    assert!(step.commands.is_empty());
    assert_eq!(step.signal, LoopSignal::Stop);
    assert!(d.is_terminating());
    let after = d.dispatch(&mut ctx, PlatformEvent::RedrawReady { now_micros: 50_000 });
    assert!(after.commands.is_empty());
    assert_eq!(after.signal, LoopSignal::Stop);
}

#[test]
fn escape_from_window_keyboard_stops() {
    let mut d = running();
    let mut ctx = context(800, 600);
    let step = d.dispatch(&mut ctx, own(WindowEvent::KeyboardInput(escape())));
    assert!(step.commands.is_empty());
    assert_eq!(step.signal, LoopSignal::Stop);
}

#[test]
fn resize_event_resizes_context_and_app() {
    let mut d = running();
    let mut ctx = context(320, 800);
    let size = PhysicalSize::new(640, 1600);
    let step = d.dispatch(&mut ctx, own(WindowEvent::Resized(size)));
    assert_eq!(step.commands, vec![Command::RecreateSwapchain, Command::Resize(size)]);
    assert_eq!((ctx.sc_desc.width, ctx.sc_desc.height), (640, 1600));
    assert_eq!((ctx.depth.width, ctx.depth.height), (640, 1600));
    assert_eq!(ctx.size, size);
}

#[test]
fn scale_change_resizes_like_resize() {
    let mut d = running();
    let mut ctx = context(800, 600);
    let size = PhysicalSize::new(1600, 1200);
    let step = d.dispatch(&mut ctx, own(WindowEvent::ScaleFactorChanged(size)));
    assert_eq!(step.commands, vec![Command::RecreateSwapchain, Command::Resize(size)]);
    assert_eq!(ctx.size, size);
}

#[test]
fn minimised_window_resizes_app_only() {
    let mut d = running();
    let mut ctx = context(800, 600);
    let size = PhysicalSize::new(0, 0);
    let step = d.dispatch(&mut ctx, own(WindowEvent::Resized(size)));
    assert_eq!(step.commands, vec![Command::Resize(size)]);
    assert_eq!(ctx.size, PhysicalSize::new(800, 600));
}

#[test]
fn events_of_other_windows_are_ignored() {
    let mut d = running();
    let mut ctx = context(800, 600);
    let step = d.dispatch(
        &mut ctx,
        PlatformEvent::Window { own: false, event: WindowEvent::Resized(PhysicalSize::new(10, 10)) },
    );
    assert!(step.commands.is_empty());
    let step = d.dispatch(&mut ctx, PlatformEvent::Window { own: false, event: WindowEvent::CloseRequested });
    assert!(step.commands.is_empty());
    assert_eq!(step.signal, LoopSignal::Continue);
    assert_eq!(ctx.size, PhysicalSize::new(800, 600));
}

#[test]
fn close_exits_once_and_nothing_follows() {
    let mut d = running();
    let mut ctx = context(800, 600);
    let step = d.dispatch(&mut ctx, own(WindowEvent::CloseRequested));
    assert_eq!(step.commands, vec![Command::Exit]);
    assert_eq!(step.signal, LoopSignal::Stop);
    assert_eq!(d.state().phase, Phase::Exited);
    for event in [
        PlatformEvent::RedrawReady { now_micros: 99_000 },
        PlatformEvent::MainEventsCleared,
        own(WindowEvent::CloseRequested),
        PlatformEvent::Device(DeviceInput::MouseMotion),
    ] {
        let step = d.dispatch(&mut ctx, event);
        assert!(step.commands.is_empty());
        assert_eq!(step.signal, LoopSignal::Stop);
    }
}

#[test]
fn out_of_memory_stops_the_loop() {
    let mut d = running();
    let mut ctx = context(800, 600);
    let step = d.dispatch(&mut ctx, PlatformEvent::RedrawReady { now_micros: 2_000 });
    assert_eq!(step.commands[1], Command::Draw);
    assert_eq!(d.finish_frame(&mut ctx, Err(FrameError::OutOfMemory)), FrameAction::Terminate);
    assert!(d.is_terminating());
    let next = d.dispatch(&mut ctx, PlatformEvent::RedrawReady { now_micros: 3_000 });
    assert!(next.commands.is_empty());
    assert_eq!(next.signal, LoopSignal::Stop);
}

#[test]
fn lost_frame_through_dispatcher() {
    let mut d = running();
    let mut ctx = context(800, 600);
    d.dispatch(&mut ctx, own(WindowEvent::Resized(PhysicalSize::new(1024, 768))));
    let action = d.finish_frame(&mut ctx, Err(FrameError::Lost));
    assert_eq!(action, FrameAction::Recreated(PhysicalSize::new(1024, 768)));
    assert!(!d.is_terminating());
    assert_eq!(d.finish_frame(&mut ctx, Ok(())), FrameAction::Presented);
}
