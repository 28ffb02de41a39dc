use wgpu::TextureFormat;
use wgpus::color::{Color, SAMPLE_LEVELS};
use wgpus::event::{ElementState, Event, KeyboardInput, MouseButton, VirtualKeyCode, WindowEvent};
use wgpus::render::{DrawIndexed, RenderPass};
use wgpus::surface::{
    CompositeAlphaMode, PhysicalSize, PresentMode, SurfaceConfiguration, SurfaceError, TextureUsages,
};
use wgpus::window::{Action, LoopState, Window};

const ID: u64 = 7;

fn size(width: u32, height: u32) -> PhysicalSize {
    PhysicalSize { width, height }
}

fn window() -> Window {
    Window::new(ID, size(800, 600), &vec![TextureFormat::Bgra8UnormSrgb, TextureFormat::Rgba8Unorm])
}

fn on_window(event: WindowEvent) -> Event {
    Event::WindowEvent { window_id: ID, event }
}

fn key(state: ElementState, code: Option<VirtualKeyCode>) -> Event {
    on_window(WindowEvent::KeyboardInput { input: KeyboardInput { state, virtual_keycode: code } })
}

fn click() -> Event {
    on_window(WindowEvent::MouseInput { state: ElementState::Pressed, button: MouseButton::Left })
}

fn teal() -> Color {
    Color::from_samples(0, SAMPLE_LEVELS / 2, SAMPLE_LEVELS / 2)
}

fn config(width: u32, height: u32) -> SurfaceConfiguration {
    SurfaceConfiguration {
        usage: TextureUsages {
            copy_src: false,
            copy_dst: false,
            texture_binding: false,
            storage_binding: false,
            render_attachment: true,
        },
        format: TextureFormat::Bgra8UnormSrgb,
        width,
        height,
        present_mode: PresentMode::Fifo,
        alpha_mode: CompositeAlphaMode::Auto,
    }
}

#[test]
fn title_is_colon_p() {
    assert_eq!(Window::title(), ":P");
}

#[test]
fn new_window_is_configured_for_its_size() {
    let w = window();
    assert_eq!(w.id, ID);
    assert_eq!(w.size, size(800, 600));
    assert_eq!(w.config, config(800, 600));
    assert_eq!(w.state, LoopState::Running);
    assert!(!w.pipeline);
    assert!(!w.is_exiting());
}

#[test]
fn new_window_takes_the_first_supported_format() {
    let w = Window::new(1, size(1, 1), &vec![TextureFormat::Rgba16Float, TextureFormat::Bgra8Unorm]);
    assert_eq!(w.config.format, TextureFormat::Rgba16Float);
}

#[test]
fn new_window_has_the_initial_background() {
    let w = window();
    assert_eq!(w.background_color, Color { red: 1, green: 2, blue: 3, alpha: 10, scale: 10 });
    assert_eq!(w.background_color, Color::background());
}

#[test]
fn resize_event_reconfigures_and_next_frame_renders() {
    let mut w = window();
    let action = w.handle_event(on_window(WindowEvent::Resized(size(400, 300))));
    assert_eq!(action, Action::Configure(config(400, 300)));
    assert_eq!(w.config.width, 400);
    assert_eq!(w.config.height, 300);
    assert_eq!(w.size, size(400, 300));
    assert_eq!(w.handle_event(Event::MainEventsCleared), Action::RequestRedraw);
    assert_eq!(w.handle_event(Event::RedrawRequested(ID)), Action::AcquireFrame);
    let action = w.handle_event(Event::FrameAcquired(Ok(())));
    assert_eq!(
        action,
        Action::Present(RenderPass {
            clear_color: Color::background(),
            store: true,
            depth_stencil: false,
            draw: None,
        })
    );
    assert_eq!(w.state, LoopState::Running);
    assert_eq!(w.config, config(400, 300));
}

#[test]
fn scale_factor_change_reconfigures() {
    let mut w = window();
    let action = w.handle_event(on_window(WindowEvent::ScaleFactorChanged { new_inner_size: size(1600, 1200) }));
    assert_eq!(action, Action::Configure(config(1600, 1200)));
    assert_eq!(w.size, size(1600, 1200));
    assert_eq!(w.config, config(1600, 1200));
}

#[test]
fn resize_to_nothing_is_taken_as_it_is() {
    let mut w = window();
    let action = w.resize(size(0, 0));
    assert_eq!(action, Action::Configure(config(0, 0)));
    assert_eq!(w.size, size(0, 0));
}

#[test]
fn resize_to_the_largest_size() {
    let mut w = window();
    let action = w.resize(size(u32::MAX, u32::MAX));
    assert_eq!(action, Action::Configure(config(u32::MAX, u32::MAX)));
}

#[test]
fn configure_returns_the_new_configuration() {
    let mut w = window();
    let before = w;
    let c = w.configure(size(640, 480));
    assert_eq!(c, config(640, 480));
    assert_eq!(w.config, c);
    assert_eq!(w.size, size(640, 480));
    assert_eq!(w.background_color, before.background_color);
    assert_eq!(w.state, before.state);
    assert_eq!(w.id, before.id);
}

#[test]
fn close_request_ends_the_loop() {
    let mut w = window();
    assert_eq!(w.handle_event(on_window(WindowEvent::CloseRequested)), Action::Exit);
    assert_eq!(w.state, LoopState::Exiting);
    assert!(w.is_exiting());
}

#[test]
fn escape_ends_the_loop() {
    let mut w = window();
    assert_eq!(w.handle_event(key(ElementState::Pressed, Some(VirtualKeyCode::Escape))), Action::Exit);
    assert!(w.is_exiting());
}

#[test]
fn other_keys_do_not_end_the_loop() {
    let mut w = window();
    let before = w;
    assert_eq!(w.handle_event(key(ElementState::Released, Some(VirtualKeyCode::Escape))), Action::Idle);
    assert_eq!(w.handle_event(key(ElementState::Pressed, Some(VirtualKeyCode::Other))), Action::Idle);
    assert_eq!(w.handle_event(key(ElementState::Pressed, None)), Action::Idle);
    assert_eq!(w, before);
}

#[test]
fn events_of_another_window_are_ignored() {
    let mut w = window();
    let before = w;
    let other = ID + 1;
    let events = [
        Event::WindowEvent { window_id: other, event: WindowEvent::CloseRequested },
        Event::WindowEvent { window_id: other, event: WindowEvent::Resized(size(1, 2)) },
        Event::WindowEvent {
            window_id: other,
            event: WindowEvent::MouseInput { state: ElementState::Pressed, button: MouseButton::Left },
        },
        Event::RedrawRequested(other),
        Event::Other,
        on_window(WindowEvent::Other),
    ];
    for event in events {
        assert_eq!(w.handle_event(event), Action::Idle);
        assert_eq!(w, before);
    }
}

#[test]
fn nothing_happens_after_the_loop_has_ended() {
    let mut w = window();
    w.handle_event(on_window(WindowEvent::CloseRequested));
    let ended = w;
    let events = [
        Event::RedrawRequested(ID),
        Event::FrameAcquired(Ok(())),
        Event::FrameAcquired(Err(SurfaceError::Lost)),
        Event::MainEventsCleared,
        click(),
        on_window(WindowEvent::Resized(size(10, 10))),
        on_window(WindowEvent::CloseRequested),
    ];
    for event in events {
        assert_eq!(w.handle_event(event), Action::Idle);
        assert_eq!(w, ended);
    }
}

#[test]
fn click_takes_the_offered_colour() {
    let mut w = window();
    let before = w;
    assert_eq!(w.dispatch(click(), teal()), Action::Idle);
    assert_eq!(w.background_color, teal());
    assert_eq!(w.config, before.config);
    assert_eq!(w.size, before.size);
    assert_eq!(w.state, before.state);
    let action = w.dispatch(Event::FrameAcquired(Ok(())), Color::from_samples(1, 1, 1));
    assert_eq!(
        action,
        Action::Present(RenderPass { clear_color: teal(), store: true, depth_stencil: false, draw: None })
    );
}

#[test]
fn only_a_left_press_recolours() {
    let mut w = window();
    let before = w;
    let events = [
        on_window(WindowEvent::MouseInput { state: ElementState::Released, button: MouseButton::Left }),
        on_window(WindowEvent::MouseInput { state: ElementState::Pressed, button: MouseButton::Right }),
        on_window(WindowEvent::MouseInput { state: ElementState::Pressed, button: MouseButton::Middle }),
        on_window(WindowEvent::MouseInput { state: ElementState::Pressed, button: MouseButton::Other(4) }),
    ];
    for event in events {
        assert_eq!(w.dispatch(event, teal()), Action::Idle);
        assert_eq!(w.handle_event(event), Action::Idle);
        assert_eq!(w, before);
    }
}

#[test]
fn click_samples_a_colour_in_the_unit_cube() {
    let mut w = window();
    for _ in 0..200 {
        assert_eq!(w.handle_event(click()), Action::Idle);
        let c = w.background_color;
        assert_eq!(c.scale, SAMPLE_LEVELS);
        assert_eq!(c.alpha, SAMPLE_LEVELS);
        assert!(c.red < SAMPLE_LEVELS);
        assert!(c.green < SAMPLE_LEVELS);
        assert!(c.blue < SAMPLE_LEVELS);
        let alpha = c.alpha as f64 / c.scale as f64;
        assert_eq!(alpha, 1.0);
        for channel in [c.red, c.green, c.blue] {
            let value = channel as f64 / c.scale as f64;
            assert!((0.0..1.0).contains(&value));
        }
    }
    assert_eq!(w.config, config(800, 600));
    assert_eq!(w.state, LoopState::Running);
}

#[test]
fn clicks_sample_evenly() {
    let mut w = window();
    let n = 20000;
    let mut sums = [0.0f64; 3];
    let mut seen = Vec::new();
    for _ in 0..n {
        w.handle_event(click());
        let c = w.background_color;
        sums[0] += c.red as f64 / c.scale as f64;
        sums[1] += c.green as f64 / c.scale as f64;
        sums[2] += c.blue as f64 / c.scale as f64;
        seen.push((c.red, c.green, c.blue));
    }
    for sum in sums {
        let mean = sum / n as f64;
        assert!((mean - 0.5).abs() < 0.02, "mean {}", mean);
    }
    seen.sort();
    seen.dedup();
    assert_eq!(seen.len(), n);
}

#[test]
fn random_colour_is_a_sample() {
    for _ in 0..1000 {
        let c = Color::random();
        assert_eq!(c.scale, SAMPLE_LEVELS);
        assert_eq!(c.alpha, SAMPLE_LEVELS);
        assert!(c.red < SAMPLE_LEVELS && c.green < SAMPLE_LEVELS && c.blue < SAMPLE_LEVELS);
    }
}

#[test]
fn sample_levels_is_two_to_the_52() {
    assert_eq!(SAMPLE_LEVELS, 1u64 << 52);
    assert_eq!(Color::from_samples(5, 6, 7), Color { red: 5, green: 6, blue: 7, alpha: 1 << 52, scale: 1 << 52 });
}

#[test]
fn lost_surface_is_reconfigured_and_keeps_the_background() {
    let mut w = window();
    w.dispatch(click(), teal());
    w.resize(size(320, 200));
    let before = w;
    let action = w.handle_event(Event::FrameAcquired(Err(SurfaceError::Lost)));
    assert_eq!(action, Action::Configure(config(320, 200)));
    assert_eq!(w, before);
    assert_eq!(w.handle_event(Event::RedrawRequested(ID)), Action::AcquireFrame);
    let action = w.handle_event(Event::FrameAcquired(Ok(())));
    assert_eq!(
        action,
        Action::Present(RenderPass { clear_color: teal(), store: true, depth_stencil: false, draw: None })
    );
    assert_eq!(w, before);
}

#[test]
fn out_of_memory_ends_the_loop() {
    let mut w = window();
    assert_eq!(w.handle_event(Event::FrameAcquired(Err(SurfaceError::OutOfMemory))), Action::Exit);
    assert_eq!(w.state, LoopState::Exiting);
    assert_eq!(w.handle_event(Event::RedrawRequested(ID)), Action::Idle);
}

#[test]
fn other_surface_errors_are_reported() {
    let mut w = window();
    let before = w;
    assert_eq!(
        w.handle_event(Event::FrameAcquired(Err(SurfaceError::Timeout))),
        Action::Report(SurfaceError::Timeout)
    );
    assert_eq!(
        w.handle_event(Event::FrameAcquired(Err(SurfaceError::Outdated))),
        Action::Report(SurfaceError::Outdated)
    );
    assert_eq!(w, before);
    assert_eq!(w.handle_event(Event::RedrawRequested(ID)), Action::AcquireFrame);
}

#[test]
fn render_passes_the_error_on() {
    let w = window();
    assert_eq!(w.render(Err(SurfaceError::Lost)), Err(SurfaceError::Lost));
    assert_eq!(w.render(Err(SurfaceError::Timeout)), Err(SurfaceError::Timeout));
    assert_eq!(
        w.render(Ok(())),
        Ok(RenderPass { clear_color: Color::background(), store: true, depth_stencil: false, draw: None })
    );
}

#[test]
fn render_draws_the_pentagon_with_a_pipeline() {
    let mut w = window();
    w.set_pipeline(true);
    assert!(w.pipeline);
    assert_eq!(
        w.render(Ok(())),
        Ok(RenderPass {
            clear_color: Color::background(),
            store: true,
            depth_stencil: false,
            draw: Some(DrawIndexed { index_count: 9, instance_count: 1 }),
        })
    );
    w.set_pipeline(false);
    assert_eq!(w.render(Ok(())).map(|pass| pass.draw), Ok(None));
}

#[test]
fn redraw_follows_the_outcome() {
    let mut w = window();
    assert_eq!(w.redraw(Ok(())), Action::Present(RenderPass::new(Color::background(), false)));
    assert_eq!(w.redraw(Err(SurfaceError::Lost)), Action::Configure(config(800, 600)));
    assert_eq!(w.redraw(Err(SurfaceError::Outdated)), Action::Report(SurfaceError::Outdated));
    assert_eq!(w.state, LoopState::Running);
    assert_eq!(w.redraw(Err(SurfaceError::OutOfMemory)), Action::Exit);
    assert_eq!(w.state, LoopState::Exiting);
}

#[test]
fn input_never_consumes() {
    let mut w = window();
    let before = w;
    assert!(!w.input(&WindowEvent::CloseRequested));
    assert!(!w.input(&WindowEvent::Resized(size(3, 4))));
    assert!(!w.input(&WindowEvent::MouseInput { state: ElementState::Pressed, button: MouseButton::Left }));
    assert_eq!(w, before);
}

#[test]
fn update_changes_nothing() {
    let mut w = window();
    let before = w;
    w.update();
    assert_eq!(w, before);
}

#[test]
fn spawn_runs_until_the_loop_ends() {
    let events = vec![
        on_window(WindowEvent::Resized(size(400, 300))),
        Event::MainEventsCleared,
        Event::RedrawRequested(ID),
        Event::FrameAcquired(Ok(())),
        key(ElementState::Pressed, Some(VirtualKeyCode::Escape)),
        Event::RedrawRequested(ID),
        on_window(WindowEvent::Resized(size(1, 1))),
    ];
    let (w, actions) = window().spawn(&events);
    assert_eq!(
        actions,
        vec![
            Action::Configure(config(400, 300)),
            Action::RequestRedraw,
            Action::AcquireFrame,
            Action::Present(RenderPass::new(Color::background(), false)),
            Action::Exit,
        ]
    );
    assert_eq!(w.state, LoopState::Exiting);
    assert_eq!(w.size, size(400, 300));
    assert_eq!(w.config, config(400, 300));
}

#[test]
fn spawn_without_exit_handles_every_event() {
    let events = vec![click(), Event::MainEventsCleared, Event::Other, Event::FrameAcquired(Err(SurfaceError::Lost))];
    let (w, actions) = window().spawn(&events);
    assert_eq!(
        actions,
        vec![Action::Idle, Action::RequestRedraw, Action::Idle, Action::Configure(config(800, 600))]
    );
    assert_eq!(w.state, LoopState::Running);
    assert!(w.background_color.red < SAMPLE_LEVELS);
    assert_eq!(w.background_color.alpha, w.background_color.scale);
}

#[test]
fn spawn_of_nothing_changes_nothing() {
    let (w, actions) = window().spawn(&Vec::new());
    assert_eq!(w, window());
    assert!(actions.is_empty());
}

#[test]
fn spawn_of_an_ended_loop_does_nothing() {
    let mut ended = window();
    ended.handle_event(on_window(WindowEvent::CloseRequested));
    let (w, actions) = ended.spawn(&vec![Event::RedrawRequested(ID), click()]);
    assert_eq!(w, ended);
    assert!(actions.is_empty());
}

#[test]
fn left_press_is_recognised() {
    assert!(click().left_press_on(ID));
    assert!(!click().left_press_on(ID + 1));
    assert!(!Event::MainEventsCleared.left_press_on(ID));
    assert!(!on_window(WindowEvent::MouseInput { state: ElementState::Released, button: MouseButton::Left })
        .left_press_on(ID));
}
