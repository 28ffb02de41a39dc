//! The window and the loop that drives it.
//!
//! [`Window`] is everything the loop remembers. [`Window::step`] is the loop
//! as mathematics: from the window as it is and one [`Event`] to the window
//! as it will be and the [`Action`] the shell has to carry out. The executable
//! functions compute exactly that.

use vstd::prelude::*;
use crate::color::Color;
use crate::event::{ElementState, Event, MouseButton, VirtualKeyCode, WindowEvent};
use crate::render::RenderPass;
use crate::surface::{PhysicalSize, SurfaceConfiguration, SurfaceError, preferred_format};

verus! {

/// Whether the loop still runs.
#[derive(Clone, Copy, Debug, PartialEq, Eq, Structural)]
pub enum LoopState {
    Running,
    /// The loop has ended. Nothing leads out of this state.
    Exiting,
}

/// What the shell has to do after an event was handled.
#[derive(Clone, Copy, Debug, PartialEq, Eq)]
pub enum Action {
    /// Nothing.
    Idle,
    /// Leave the event loop.
    Exit,
    /// Configure the surface with this configuration.
    Configure(SurfaceConfiguration),
    /// Ask the windowing system to have the window drawn again.
    RequestRedraw,
    /// Try to acquire the next frame of the surface and report the outcome as
    /// [`Event::FrameAcquired`].
    AcquireFrame,
    /// Record this pass into the acquired frame, submit it and present the
    /// frame.
    Present(RenderPass),
    /// Print this error and go on.
    Report(SurfaceError),
}

/// The window, its surface and the state of its loop.
#[derive(Clone, Copy, Debug, PartialEq, Eq)]
pub struct Window {
    /// The identifier under which the windowing system reports events of this
    /// window.
    pub id: u64,
    /// The colour every frame is cleared to.
    pub background_color: Color,
    /// The configuration the surface was last given.
    pub config: SurfaceConfiguration,
    /// The size of the window in physical pixels.
    pub size: PhysicalSize,
    /// Whether the shell holds a pipeline to draw the pentagon with.
    pub pipeline: bool,
    pub state: LoopState,
}

impl Window {
    /// The swap chain has the size of the window and the fixed choices of a
    /// configuration, and the background is a well-formed opaque colour.
    pub open spec fn wf(self) -> bool {
        &&& self.config.wf()
        &&& self.config.size() == self.size
        &&& self.background_color.wf()
        &&& self.background_color.is_opaque()
    }

    /// The window as it is created: running, without a pipeline, with the
    /// initial background, its surface configured for its size.
    pub open spec fn created(id: u64, size: PhysicalSize, format: wgpu::TextureFormat) -> Window {
        Window {
            id,
            background_color: Color::initial_background(),
            config: SurfaceConfiguration::for_surface(size, format),
            size,
            pipeline: false,
            state: LoopState::Running,
        }
    }

    /// The window after it took the size `size`.
    pub open spec fn resized(self, size: PhysicalSize) -> Window {
        Window { size, config: self.config.resized(size), ..self }
    }

    /// The window with its loop ended.
    pub open spec fn exited(self) -> Window {
        Window { state: LoopState::Exiting, ..self }
    }

    /// The window with another background.
    pub open spec fn recolored(self, color: Color) -> Window {
        Window { background_color: color, ..self }
    }

    /// The pass that draws a frame of the window as it is.
    pub open spec fn render_pass(self) -> RenderPass {
        RenderPass::of_frame(self.background_color, self.pipeline)
    }

    /// What a running loop makes of an event of its own window. `sampled` is
    /// the colour that was drawn for the case that the event is a click.
    pub open spec fn on_window_event(self, event: WindowEvent, sampled: Color) -> (Window, Action) {
        if event.requests_exit() {
            (self.exited(), Action::Exit)
        } else if event.new_size() is Some {
            let next = self.resized(event.new_size().unwrap());
            (next, Action::Configure(next.config))
        } else if event.is_left_press() {
            (self.recolored(sampled), Action::Idle)
        } else {
            (self, Action::Idle)
        }
    }

    /// What a running loop makes of the outcome of acquiring a frame.
    pub open spec fn on_frame(self, acquired: Result<(), SurfaceError>) -> (Window, Action) {
        match acquired {
            Ok(_) => (self, Action::Present(self.render_pass())),
            Err(SurfaceError::Lost) => {
                let next = self.resized(self.size);
                (next, Action::Configure(next.config))
            },
            Err(SurfaceError::OutOfMemory) => (self.exited(), Action::Exit),
            Err(error) => (self, Action::Report(error)),
        }
    }

    /// One step of the loop.
    pub open spec fn step(self, event: Event, sampled: Color) -> (Window, Action) {
        if self.state == LoopState::Exiting {
            (self, Action::Idle)
        } else {
            match event {
                Event::WindowEvent { window_id, event } => {
                    if window_id == self.id {
                        self.on_window_event(event, sampled)
                    } else {
                        (self, Action::Idle)
                    }
                },
                Event::RedrawRequested(window_id) => {
                    if window_id == self.id {
                        (self, Action::AcquireFrame)
                    } else {
                        (self, Action::Idle)
                    }
                },
                Event::MainEventsCleared => (self, Action::RequestRedraw),
                Event::FrameAcquired(acquired) => self.on_frame(acquired),
                Event::Other => (self, Action::Idle),
            }
        }
    }

    /// The step samples a colour: the loop runs and the event is a press of
    /// the left mouse button on this window.
    pub open spec fn samples_on(self, event: Event) -> bool {
        self.state == LoopState::Running && event.is_left_press_on(self.id)
    }

    /// A run of the loop over `events`, one after the other, with `samples[i]`
    /// as the colour drawn for `events[i]`. The run stops handling events once
    /// the loop has ended. It gives the window at the end and the actions of
    /// the events that were handled, in order.
    pub open spec fn run(self, events: Seq<Event>, samples: Seq<Color>) -> (Window, Seq<Action>)
        decreases events.len(),
    {
        if events.len() == 0 {
            (self, Seq::empty())
        } else {
            let (before, actions) = self.run(events.drop_last(), samples.drop_last());
            if before.state == LoopState::Exiting {
                (before, actions)
            } else {
                let (after, action) = before.step(events.last(), samples.last());
                (after, actions.push(action))
            }
        }
    }

    /// The title of the window.
    pub fn title() -> (title: &'static str)
        ensures
            title@ == seq![':', 'P'],
    {
        proof {
            reveal_strlit(":P");
        }
        ":P"
    }

    /// Creates the window with the identifier and size the windowing system
    /// gave it, for a surface that supports `supported_formats`, of which the
    /// first is taken.
    pub fn new(id: u64, size: PhysicalSize, supported_formats: &Vec<wgpu::TextureFormat>) -> (window: Window)
        requires
            supported_formats@.len() > 0,
        ensures
            window == Window::created(id, size, supported_formats@[0]),
            window.wf(),
    {
        let format = preferred_format(supported_formats);
        Window {
            id,
            background_color: Color::background(),
            config: SurfaceConfiguration::new(size, format),
            size,
            pipeline: false,
            state: LoopState::Running,
        }
    }

    /// Records whether the shell holds a pipeline to draw the pentagon with.
    pub fn set_pipeline(&mut self, present: bool)
        ensures
            *final(self) == (Window { pipeline: present, ..*old(self) }),
    {
        self.pipeline = present;
    }

    /// Whether the loop has ended.
    pub fn is_exiting(&self) -> (exiting: bool)
        ensures
            exiting == (self.state == LoopState::Exiting),
    {
        match self.state {
            LoopState::Running => false,
            LoopState::Exiting => true,
        }
    }

    /// Sets the swap chain to the given size and returns the configuration to
    /// hand to the surface.
    pub fn configure(&mut self, size: PhysicalSize) -> (config: SurfaceConfiguration)
        ensures
            *final(self) == old(self).resized(size),
            config == final(self).config,
            config.width == size.width,
            config.height == size.height,
            final(self).config.size() == final(self).size,
    {
        self.size = size;
        self.config.width = size.width;
        self.config.height = size.height;
        self.config
    }

    /// Takes the new size of the window and has the surface configured for it.
    pub fn resize(&mut self, new_size: PhysicalSize) -> (action: Action)
        ensures
            *final(self) == old(self).resized(new_size),
            action == Action::Configure(final(self).config),
    {
        let config = self.configure(new_size);
        Action::Configure(config)
    }

    /// Offers an event to the window itself before the loop acts on it, and
    /// says whether the window used it up. It never does.
    pub fn input(&mut self, _event: &WindowEvent) -> (consumed: bool)
        ensures
            !consumed,
            *final(self) == *old(self),
    {
        false
    }

    /// Advances what the window shows by one frame. Nothing moves.
    pub fn update(&mut self)
        ensures
            *final(self) == *old(self),
    {
    }

    /// Says what to record into the frame that the shell tried to acquire: the
    /// pass of the window as it is, or the error that left it without a frame.
    pub fn render(&self, acquired: Result<(), SurfaceError>) -> (recorded: Result<RenderPass, SurfaceError>)
        ensures
            recorded == match acquired {
                Ok(_) => Ok::<RenderPass, SurfaceError>(self.render_pass()),
                Err(error) => Err(error),
            },
    {
        match acquired {
            Ok(_) => Ok(RenderPass::new(self.background_color, self.pipeline)),
            Err(error) => Err(error),
        }
    }

    /// Handles the outcome of acquiring a frame while the loop runs: presents
    /// the frame, or configures the surface again at the current size if it
    /// was lost, ends the loop if memory ran out, and reports any other error.
    pub fn redraw(&mut self, acquired: Result<(), SurfaceError>) -> (action: Action)
        ensures
            (*final(self), action) == old(self).on_frame(acquired),
    {
        self.update();
        match self.render(acquired) {
            Ok(pass) => Action::Present(pass),
            Err(SurfaceError::Lost) => {
                let size = self.size;
                self.resize(size)
            },
            Err(SurfaceError::OutOfMemory) => {
                self.state = LoopState::Exiting;
                Action::Exit
            },
            Err(error) => Action::Report(error),
        }
    }

    /// Handles one event, with `sampled` as the colour to take if the event
    /// is a click.
    pub fn dispatch(&mut self, event: Event, sampled: Color) -> (action: Action)
        ensures
            (*final(self), action) == old(self).step(event, sampled),
            old(self).wf() && sampled.wf() && sampled.is_opaque() ==> final(self).wf(),
    {
        if self.is_exiting() {
            return Action::Idle;
        }
        match event {
            Event::WindowEvent { window_id, event } => {
                if window_id != self.id {
                    return Action::Idle;
                }
                match event {
                    WindowEvent::CloseRequested => {
                        self.state = LoopState::Exiting;
                        Action::Exit
                    },
                    WindowEvent::KeyboardInput { input } => {
                        match (input.state, input.virtual_keycode) {
                            (ElementState::Pressed, Some(VirtualKeyCode::Escape)) => {
                                self.state = LoopState::Exiting;
                                Action::Exit
                            },
                            _ => Action::Idle,
                        }
                    },
                    WindowEvent::Resized(new_size) => self.resize(new_size),
                    WindowEvent::ScaleFactorChanged { new_inner_size } => self.resize(new_inner_size),
                    WindowEvent::MouseInput { state, button } => {
                        match (state, button) {
                            (ElementState::Pressed, MouseButton::Left) => {
                                self.background_color = sampled;
                                Action::Idle
                            },
                            _ => Action::Idle,
                        }
                    },
                    WindowEvent::Other => Action::Idle,
                }
            },
            Event::RedrawRequested(window_id) => {
                if window_id == self.id {
                    Action::AcquireFrame
                } else {
                    Action::Idle
                }
            },
            Event::MainEventsCleared => Action::RequestRedraw,
            Event::FrameAcquired(acquired) => self.redraw(acquired),
            Event::Other => Action::Idle,
        }
    }

    /// Handles one event. If it is a click on this window while the loop runs,
    /// a fresh colour is drawn for the background.
    pub fn handle_event(&mut self, event: Event) -> (action: Action)
        ensures
            exists|sampled: Color|
                sampled.is_sample() && (*final(self), action) == #[trigger] old(self).step(event, sampled),
            !old(self).samples_on(event) ==> (*final(self), action) == old(self).step(
                event,
                old(self).background_color,
            ),
            old(self).samples_on(event) ==> {
                &&& final(self).background_color.is_sample()
                &&& *final(self) == old(self).recolored(final(self).background_color)
                &&& action == Action::Idle
            },
            old(self).wf() ==> final(self).wf(),
    {
        let sampled = if !self.is_exiting() && event.left_press_on(self.id) {
            Color::random()
        } else {
            self.background_color
        };
        proof {
            if !self.samples_on(event) {
                let black = Color::opaque_of(0, 0, 0);
                lemma_step_ignores_sample(*self, event, sampled, black);
                assert(black.is_sample() && self.step(event, sampled) == self.step(event, black));
            }
        }
        self.dispatch(event, sampled)
    }

    /// Runs the loop over the events in order, until they are used up or the
    /// loop has ended. Returns the window as the run left it and the actions
    /// for the shell, one for each event that was handled.
    pub fn spawn(self, events: &Vec<Event>) -> (outcome: (Window, Vec<Action>))
        ensures
            exists|samples: Seq<Color>|
                {
                    &&& samples.len() == events@.len()
                    &&& forall|i: int| 0 <= i < samples.len() ==> (#[trigger] samples[i]).is_sample()
                    &&& (outcome.0, outcome.1@) == #[trigger] self.run(events@, samples)
                },
            self.wf() ==> outcome.0.wf(),
    {
        let mut window = self;
        let mut actions: Vec<Action> = Vec::new();
        let ghost mut samples: Seq<Color> = Seq::empty();
        let mut i: usize = 0;
        assert(events@.take(0) =~= Seq::empty());
        while i < events.len() && !window.is_exiting()
            invariant
                0 <= i <= events@.len(),
                samples.len() == i,
                forall|k: int| 0 <= k < samples.len() ==> (#[trigger] samples[k]).is_sample(),
                (window, actions@) == self.run(events@.take(i as int), samples),
            decreases events@.len() - i,
        {
            let ghost before = window;
            let action = window.handle_event(events[i]);
            proof {
                let sampled = choose|sampled: Color|
                    sampled.is_sample() && (window, action) == #[trigger] before.step(events@[i as int], sampled);
                let longer = events@.take(i + 1);
                assert(longer.drop_last() =~= events@.take(i as int));
                assert(samples.push(sampled).drop_last() =~= samples);
                samples = samples.push(sampled);
            }
            actions.push(action);
            i += 1;
        }
        proof {
            let rest = Seq::new((events@.len() - i) as nat, |k: int| Color::opaque_of(0, 0, 0));
            let all = samples + rest;
            assert(all.take(i as int) =~= samples);
            lemma_run_stops_at_exit(self, events@, all, i as int);
            assert(events@.take(events@.len() as int) =~= events@);
            assert(all.take(all.len() as int) =~= all);
            assert((window, actions@) == self.run(events@, all));
            if self.wf() {
                lemma_run_preserves_wf(self, events@, all);
            }
        }
        (window, actions)
    }
}

/// A step looks at the sampled colour only where it samples one.
pub proof fn lemma_step_ignores_sample(window: Window, event: Event, first: Color, second: Color)
    requires
        !window.samples_on(event),
    ensures
        window.step(event, first) == window.step(event, second),
{
}

/// Once the loop has ended, the rest of a run changes nothing: if the run over
/// the first `handled` events leaves the loop ended, or `handled` is all of
/// them, the run over all events gives the same window and the same actions.
pub proof fn lemma_run_stops_at_exit(window: Window, events: Seq<Event>, samples: Seq<Color>, handled: int)
    requires
        0 <= handled <= events.len(),
        samples.len() == events.len(),
        handled == events.len() || window.run(events.take(handled), samples.take(handled)).0.state
            == LoopState::Exiting,
    ensures
        window.run(events, samples) == window.run(events.take(handled), samples.take(handled)),
    decreases events.len(),
{
    if handled == events.len() {
        assert(events.take(handled) =~= events);
        assert(samples.take(handled) =~= samples);
    } else {
        assert(events.drop_last().take(handled) =~= events.take(handled));
        assert(samples.drop_last().take(handled) =~= samples.take(handled));
        lemma_run_stops_at_exit(window, events.drop_last(), samples.drop_last(), handled);
    }
}

/// A resize of this window, whether the window was resized or its scale
/// factor changed, leaves a running loop with a swap chain of exactly the new
/// size, and tells the shell to configure the surface with it. Nothing else
/// about the window changes.
pub proof fn lemma_resize_configures_new_size(window: Window, event: WindowEvent, size: PhysicalSize, sampled: Color)
    requires
        window.state == LoopState::Running,
        event == WindowEvent::Resized(size) || event == (WindowEvent::ScaleFactorChanged {
            new_inner_size: size,
        }),
    ensures
        ({
            let (next, action) = window.step(Event::WindowEvent { window_id: window.id, event }, sampled);
            &&& next.config.width == size.width
            &&& next.config.height == size.height
            &&& next.size == size
            &&& action == Action::Configure(next.config)
            &&& next == window.resized(size)
            &&& next.config.format == window.config.format
            &&& next.background_color == window.background_color
        }),
{
}

/// A click on this window while the loop runs makes the sampled colour the
/// background: an opaque colour with red, green and blue in the unit
/// interval. Nothing else about the window changes, and the shell has
/// nothing to do.
pub proof fn lemma_click_recolors(window: Window, event: Event, sampled: Color)
    requires
        window.samples_on(event),
        sampled.is_sample(),
    ensures
        window.step(event, sampled) == (window.recolored(sampled), Action::Idle),
        window.step(event, sampled).0.background_color.wf(),
        window.step(event, sampled).0.background_color.is_opaque(),
{
}

/// A step keeps a well-formed window well-formed, whatever the event, as long
/// as the colour offered to it is well-formed and opaque.
pub proof fn lemma_step_preserves_wf(window: Window, event: Event, sampled: Color)
    requires
        window.wf(),
        sampled.wf(),
        sampled.is_opaque(),
    ensures
        window.step(event, sampled).0.wf(),
{
}

/// A whole run keeps a well-formed window well-formed: at every moment the
/// swap chain has the size of the window, and the background is an opaque
/// colour inside the unit cube.
pub proof fn lemma_run_preserves_wf(window: Window, events: Seq<Event>, samples: Seq<Color>)
    requires
        window.wf(),
        samples.len() == events.len(),
        forall|i: int| 0 <= i < samples.len() ==> (#[trigger] samples[i]).is_sample(),
    ensures
        window.run(events, samples).0.wf(),
    decreases events.len(),
{
    if events.len() > 0 {
        lemma_run_preserves_wf(window, events.drop_last(), samples.drop_last());
        let before = window.run(events.drop_last(), samples.drop_last()).0;
        lemma_step_preserves_wf(before, events.last(), samples.last());
    }
}

/// No run changes which window this is, the pixel format of its surface, or
/// whether there is a pipeline: events only ever change the size, the
/// background and the state of the loop.
pub proof fn lemma_run_keeps_surface(window: Window, events: Seq<Event>, samples: Seq<Color>)
    ensures
        window.run(events, samples).0.id == window.id,
        window.run(events, samples).0.config.format == window.config.format,
        window.run(events, samples).0.config.usage == window.config.usage,
        window.run(events, samples).0.config.present_mode == window.config.present_mode,
        window.run(events, samples).0.config.alpha_mode == window.config.alpha_mode,
        window.run(events, samples).0.pipeline == window.pipeline,
    decreases events.len(),
{
    if events.len() > 0 {
        lemma_run_keeps_surface(window, events.drop_last(), samples.drop_last());
    }
}

/// A request to close this window, or Escape going down on it, ends the loop
/// in that very step.
pub proof fn lemma_exit_request_ends_loop(window: Window, event: Event, sampled: Color)
    requires
        event.requests_exit_of(window.id),
    ensures
        window.step(event, sampled).0.state == LoopState::Exiting,
        window.state == LoopState::Running ==> window.step(event, sampled) == (window.exited(), Action::Exit),
{
}

/// Nothing leads out of the ended loop: every event leaves the window as it
/// is and gives the shell nothing to do, so no frame is acquired or presented.
pub proof fn lemma_exiting_is_terminal(window: Window, event: Event, sampled: Color)
    requires
        window.state == LoopState::Exiting,
    ensures
        window.step(event, sampled) == (window, Action::Idle),
{
}

/// A run hands out at most one action for each event, and none of them comes
/// after the one that ended the loop: where the loop has ended, the last
/// action is the exit.
pub proof fn lemma_run_ends_with_exit(window: Window, events: Seq<Event>, samples: Seq<Color>)
    requires
        window.state == LoopState::Running,
    ensures
        window.run(events, samples).1.len() <= events.len(),
        window.run(events, samples).0.state == LoopState::Exiting ==> {
            &&& window.run(events, samples).1.len() > 0
            &&& window.run(events, samples).1.last() == Action::Exit
        },
        window.run(events, samples).0.state == LoopState::Running ==> {
            &&& window.run(events, samples).1.len() == events.len()
            &&& forall|i: int|
                0 <= i < events.len() ==> #[trigger] window.run(events, samples).1[i] != Action::Exit
        },
    decreases events.len(),
{
    if events.len() > 0 {
        lemma_run_ends_with_exit(window, events.drop_last(), samples.drop_last());
    }
}

/// A lost surface costs one frame and nothing else. When a running loop is
/// told that the surface was lost, it has the surface configured again at the
/// size of the window; when the next frame is then acquired, it is presented,
/// cleared to the background the window had before the loss.
pub proof fn lemma_lost_surface_recovers(window: Window, first: Color, second: Color)
    requires
        window.state == LoopState::Running,
    ensures
        ({
            let (lost, reconfigure) = window.step(Event::FrameAcquired(Err(SurfaceError::Lost)), first);
            let (next, present) = lost.step(Event::FrameAcquired(Ok(())), second);
            &&& reconfigure == Action::Configure(window.config.resized(window.size))
            &&& lost.state == LoopState::Running
            &&& lost.background_color == window.background_color
            &&& lost.size == window.size
            &&& window.wf() ==> lost == window
            &&& present == Action::Present(RenderPass::of_frame(window.background_color, window.pipeline))
            &&& next == lost
        }),
{
}

} // verus!
