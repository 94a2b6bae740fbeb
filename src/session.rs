use vstd::prelude::*;
use crate::display::{
    chosen_mode, select_video_mode, FullscreenState, VideoMode, WindowSize, FALLBACK_HEIGHT,
    FALLBACK_WIDTH,
};
use crate::frame::{FrameAction, FrameEvent, FramePipeline, frame_step, idle_frame};
use crate::surface_config::SurfaceConfig;

verus! {

/// Keys the session reacts to.
#[derive(Clone, Copy, Debug, PartialEq, Eq, Structural)]
pub enum Key {
    F11,
    Other,
}

/// A window event, reduced to what the session decides on.
#[derive(Clone, Copy, Debug, PartialEq, Eq, Structural)]
pub enum WindowEvent {
    CloseRequested,
    Resized { width: u32, height: u32 },
    RedrawRequested,
    Focused(bool),
    /// A key changed state; `repeat` marks a press generated by holding it.
    KeyboardInput { key: Key, pressed: bool, repeat: bool },
    Other,
}

/// One thing the event loop must do to the window, the surface or the loop.
#[derive(Clone, Copy, Debug, PartialEq, Eq, Structural)]
pub enum WindowAction {
    /// Stop the event loop.
    Exit,
    /// Reconfigure the surface with the session's current configuration.
    ConfigureSurface,
    /// Render one frame.
    Render,
    /// Minimize (`true`) or restore (`false`) the window.
    SetMinimized(bool),
    /// Ask the platform for this inner size.
    RequestInnerSize(WindowSize),
    /// Enter or leave exclusive fullscreen.
    SetFullscreen(FullscreenState),
}

/// The session's window and surface state, apart from the graphics handles.
#[derive(Clone, Copy, Debug, PartialEq, Eq, Structural)]
pub struct WindowSurface {
    pub config: SurfaceConfig,
    pub fullscreen: FullscreenState,
    /// The session minimized the window because it lost focus in fullscreen.
    pub minimized_for_focus: bool,
    /// The event loop has not been told to exit.
    pub running: bool,
}

/// Whether the event asks to toggle fullscreen: a fresh press of F11, not a
/// repeat from holding it.
pub open spec fn is_toggle_request(e: WindowEvent) -> bool {
    e == (WindowEvent::KeyboardInput { key: Key::F11, pressed: true, repeat: false })
}

/// The surface size after a resize request: zero in either dimension changes
/// nothing.
pub open spec fn resized(c: SurfaceConfig, width: u32, height: u32) -> SurfaceConfig {
    if width == 0 || height == 0 {
        c
    } else {
        SurfaceConfig { width, height, ..c }
    }
}

/// The reconfiguration a resize request calls for, if any.
pub open spec fn configure_for(width: u32, height: u32) -> Seq<WindowAction> {
    if width == 0 || height == 0 {
        Seq::empty()
    } else {
        seq![WindowAction::ConfigureSurface]
    }
}

/// The state after one event, with `modes` the primary display's video modes
/// (`None` when there is no primary display).
pub open spec fn next_session(s: WindowSurface, e: WindowEvent, modes: Option<Seq<VideoMode>>) -> WindowSurface {
    if !s.running {
        s
    } else {
        match e {
            WindowEvent::CloseRequested => WindowSurface { running: false, ..s },
            WindowEvent::Resized { width, height } => WindowSurface { config: resized(s.config, width, height), ..s },
            WindowEvent::Focused(focused) => if !focused && s.fullscreen != FullscreenState::Windowed {
                WindowSurface { minimized_for_focus: true, ..s }
            } else if focused && s.minimized_for_focus {
                WindowSurface { minimized_for_focus: false, ..s }
            } else {
                s
            },
            WindowEvent::KeyboardInput { .. } => if !is_toggle_request(e) {
                s
            } else {
                match s.fullscreen {
                    FullscreenState::ExclusiveFullscreen(_) => WindowSurface {
                        fullscreen: FullscreenState::Windowed,
                        config: resized(s.config, FALLBACK_WIDTH, FALLBACK_HEIGHT),
                        ..s
                    },
                    FullscreenState::Windowed => match modes {
                        Some(ms) => match chosen_mode(ms) {
                            Some(m) => WindowSurface {
                                fullscreen: FullscreenState::ExclusiveFullscreen(m),
                                config: resized(s.config, m.width, m.height),
                                ..s
                            },
                            None => s,
                        },
                        None => s,
                    },
                }
            },
            _ => s,
        }
    }
}

/// What the event loop must do for one event, in order.
pub open spec fn session_actions(s: WindowSurface, e: WindowEvent, modes: Option<Seq<VideoMode>>) -> Seq<WindowAction> {
    if !s.running {
        Seq::empty()
    } else {
        match e {
            WindowEvent::CloseRequested => seq![WindowAction::Exit],
            WindowEvent::Resized { width, height } => configure_for(width, height),
            WindowEvent::RedrawRequested => seq![WindowAction::Render],
            WindowEvent::Focused(focused) => if !focused && s.fullscreen != FullscreenState::Windowed {
                seq![WindowAction::SetMinimized(true)]
            } else if focused && s.minimized_for_focus {
                seq![WindowAction::SetMinimized(false)]
            } else {
                Seq::empty()
            },
            WindowEvent::KeyboardInput { .. } => if !is_toggle_request(e) {
                Seq::empty()
            } else {
                match s.fullscreen {
                    FullscreenState::ExclusiveFullscreen(_) => seq![
                        WindowAction::SetFullscreen(FullscreenState::Windowed),
                        WindowAction::RequestInnerSize(
                            WindowSize::Physical { width: FALLBACK_WIDTH, height: FALLBACK_HEIGHT },
                        ),
                        WindowAction::ConfigureSurface,
                    ],
                    FullscreenState::Windowed => match modes {
                        Some(ms) => match chosen_mode(ms) {
                            Some(m) => seq![
                                WindowAction::RequestInnerSize(WindowSize::Physical { width: m.width, height: m.height }),
                            ] + configure_for(m.width, m.height) + seq![
                                WindowAction::SetFullscreen(FullscreenState::ExclusiveFullscreen(m)),
                            ],
                            None => Seq::empty(),
                        },
                        None => Seq::empty(),
                    },
                }
            },
            WindowEvent::Other => Seq::empty(),
        }
    }
}

pub open spec fn modes_view(modes: Option<&Vec<VideoMode>>) -> Option<Seq<VideoMode>> {
    match modes {
        Some(v) => Some(v@),
        None => None,
    }
}

/// A resize with a zero width or height changes nothing and asks for no
/// reconfiguration.
pub proof fn lemma_zero_resize_is_noop(s: WindowSurface, width: u32, height: u32, modes: Option<Seq<VideoMode>>)
    requires
        width == 0 || height == 0,
    ensures
        resized(s.config, width, height) == s.config,
        next_session(s, WindowEvent::Resized { width, height }, modes) == s,
        session_actions(s, WindowEvent::Resized { width, height }, modes) == Seq::<WindowAction>::empty(),
{
}

/// After a resize with a positive width and height the configuration has
/// exactly that size, and the surface is reconfigured once.
pub proof fn lemma_resize_sets_size(s: WindowSurface, width: u32, height: u32, modes: Option<Seq<VideoMode>>)
    requires
        width > 0,
        height > 0,
        s.running,
    ensures
        resized(s.config, width, height).width == width,
        resized(s.config, width, height).height == height,
        next_session(s, WindowEvent::Resized { width, height }, modes).config.width == width,
        next_session(s, WindowEvent::Resized { width, height }, modes).config.height == height,
        session_actions(s, WindowEvent::Resized { width, height }, modes) == seq![WindowAction::ConfigureSurface],
{
}

/// Toggling fullscreen twice (windowed, then exclusive fullscreen in the
/// display's first mode, then windowed again) returns the session to windowed
/// mode with the surface size it had before. Leaving fullscreen always applies
/// the windowed fallback size, so this holds from that size; from any other
/// the round trip ends at the fallback size instead.
pub proof fn lemma_toggle_twice_restores(s: WindowSurface, modes: Seq<VideoMode>, later_modes: Option<Seq<VideoMode>>)
    requires
        s.running,
        s.fullscreen == FullscreenState::Windowed,
        modes.len() > 0,
        s.config.width == FALLBACK_WIDTH,
        s.config.height == FALLBACK_HEIGHT,
    ensures
        ({
            let toggle = WindowEvent::KeyboardInput { key: Key::F11, pressed: true, repeat: false };
            let once = next_session(s, toggle, Some(modes));
            let twice = next_session(once, toggle, later_modes);
            &&& once.fullscreen == FullscreenState::ExclusiveFullscreen(modes[0])
            &&& twice.config == s.config
            &&& twice.fullscreen == FullscreenState::Windowed
        }),
{
    let toggle = WindowEvent::KeyboardInput { key: Key::F11, pressed: true, repeat: false };
    assert(is_toggle_request(toggle));
}

/// Toggling into fullscreen uses the first mode the display enumerates.
pub proof fn lemma_toggle_uses_first_mode(s: WindowSurface, modes: Seq<VideoMode>)
    requires
        s.running,
        s.fullscreen == FullscreenState::Windowed,
        modes.len() > 0,
    ensures
        next_session(
            s,
            WindowEvent::KeyboardInput { key: Key::F11, pressed: true, repeat: false },
            Some(modes),
        ).fullscreen == FullscreenState::ExclusiveFullscreen(modes[0]),
{
}

/// A close request ends the loop in any fullscreen state, without a
/// transition to windowed mode first; after it no event asks for anything,
/// a redraw included.
pub proof fn lemma_close_ends_loop(
    s: WindowSurface,
    modes: Option<Seq<VideoMode>>,
    later: WindowEvent,
    later_modes: Option<Seq<VideoMode>>,
)
    requires
        s.running,
    ensures
        session_actions(s, WindowEvent::CloseRequested, modes) == seq![WindowAction::Exit],
        !next_session(s, WindowEvent::CloseRequested, modes).running,
        next_session(s, WindowEvent::CloseRequested, modes).fullscreen == s.fullscreen,
        session_actions(next_session(s, WindowEvent::CloseRequested, modes), later, later_modes)
            == Seq::<WindowAction>::empty(),
{
}

impl WindowSurface {
    pub open spec fn wf(&self) -> bool {
        self.config.wf()
    }

    /// A running session over a freshly configured surface, in the given
    /// fullscreen state.
    pub fn new(config: SurfaceConfig, fullscreen: FullscreenState) -> (r: WindowSurface)
        requires
            config.wf(),
        ensures
            r == (WindowSurface { config, fullscreen, minimized_for_focus: false, running: true }),
            r.wf(),
    {
        WindowSurface { config, fullscreen, minimized_for_focus: false, running: true }
    }

    /// Applies a resize: a zero width or height leaves the configuration as it
    /// was; otherwise the configuration takes the new size. Returns whether the
    /// surface must be reconfigured.
    pub fn resize(&mut self, width: u32, height: u32) -> (reconfigure: bool)
        ensures
            reconfigure == (width > 0 && height > 0),
            *final(self) == (WindowSurface { config: resized(old(self).config, width, height), ..*old(self) }),
    {
        self.config.resize(width, height)
    }

    /// The current surface width.
    pub fn width(&self) -> (r: u32)
        ensures
            r == self.config.width,
    {
        self.config.width
    }

    /// The current surface height.
    pub fn height(&self) -> (r: u32)
        ensures
            r == self.config.height,
    {
        self.config.height
    }

    /// Starts one frame; `minimized` is the window's state. A minimized window
    /// gets a skipped frame; otherwise the frame asks for a texture.
    pub fn render(&self, minimized: bool) -> (r: (FramePipeline, FrameAction))
        ensures
            r.0.wf(),
            (r.0.view(), r.1) == frame_step(idle_frame(), FrameEvent::Begin { minimized }),
    {
        let mut frame = FramePipeline::new();
        let action = frame.step(FrameEvent::Begin { minimized });
        (frame, action)
    }

    /// Whether handling this event needs the primary display's video modes.
    pub fn needs_display_modes(&self, event: WindowEvent) -> (r: bool)
        ensures
            r == (self.running && is_toggle_request(event) && self.fullscreen == FullscreenState::Windowed),
    {
        self.running && event == (WindowEvent::KeyboardInput { key: Key::F11, pressed: true, repeat: false })
            && self.fullscreen == FullscreenState::Windowed
    }

    /// Decides what one window event does. `modes` are the primary display's
    /// video modes, in enumeration order, or `None` when there is no primary
    /// display; they are read only for a toggle into fullscreen. Returns the
    /// actions for the event loop, in order.
    pub fn handle_event(&mut self, event: WindowEvent, modes: Option<&Vec<VideoMode>>) -> (actions: Vec<WindowAction>)
        requires
            old(self).wf(),
        ensures
            final(self).wf(),
            *final(self) == next_session(*old(self), event, modes_view(modes)),
            actions@ == session_actions(*old(self), event, modes_view(modes)),
    {
        let mut actions: Vec<WindowAction> = Vec::new();
        if !self.running {
            return actions;
        }
        match event {
            WindowEvent::CloseRequested => {
                self.running = false;
                actions.push(WindowAction::Exit);
            },
            WindowEvent::Resized { width, height } => {
                if self.resize(width, height) {
                    actions.push(WindowAction::ConfigureSurface);
                }
            },
            WindowEvent::RedrawRequested => {
                actions.push(WindowAction::Render);
            },
            WindowEvent::Focused(focused) => {
                if !focused && self.fullscreen != FullscreenState::Windowed {
                    self.minimized_for_focus = true;
                    actions.push(WindowAction::SetMinimized(true));
                } else if focused && self.minimized_for_focus {
                    self.minimized_for_focus = false;
                    actions.push(WindowAction::SetMinimized(false));
                }
            },
            WindowEvent::KeyboardInput { key, pressed, repeat } => {
                if key == Key::F11 && pressed && !repeat {
                    self.toggle_fullscreen(modes, &mut actions);
                }
            },
            WindowEvent::Other => {},
        }
        assert(actions@ =~= session_actions(*old(self), event, modes_view(modes)));
        actions
    }

    fn toggle_fullscreen(&mut self, modes: Option<&Vec<VideoMode>>, actions: &mut Vec<WindowAction>)
        requires
            old(self).wf(),
            old(self).running,
            old(actions)@.len() == 0,
        ensures
            final(self).wf(),
            *final(self) == next_session(
                *old(self),
                WindowEvent::KeyboardInput { key: Key::F11, pressed: true, repeat: false },
                modes_view(modes),
            ),
            final(actions)@ == session_actions(
                *old(self),
                WindowEvent::KeyboardInput { key: Key::F11, pressed: true, repeat: false },
                modes_view(modes),
            ),
    {
        let ghost e = WindowEvent::KeyboardInput { key: Key::F11, pressed: true, repeat: false };
        assert(is_toggle_request(e));
        match self.fullscreen {
            FullscreenState::ExclusiveFullscreen(_) => {
                self.fullscreen = FullscreenState::Windowed;
                actions.push(WindowAction::SetFullscreen(FullscreenState::Windowed));
                actions.push(
                    WindowAction::RequestInnerSize(WindowSize::Physical { width: FALLBACK_WIDTH, height: FALLBACK_HEIGHT }),
                );
                if self.resize(FALLBACK_WIDTH, FALLBACK_HEIGHT) {
                    actions.push(WindowAction::ConfigureSurface);
                }
                assert(actions@ =~= session_actions(*old(self), e, modes_view(modes)));
            },
            FullscreenState::Windowed => {
                match modes {
                    Some(ms) => {
                        match select_video_mode(ms) {
                            Some(m) => {
                                actions.push(
                                    WindowAction::RequestInnerSize(WindowSize::Physical { width: m.width, height: m.height }),
                                );
                                if self.resize(m.width, m.height) {
                                    actions.push(WindowAction::ConfigureSurface);
                                }
                                self.fullscreen = FullscreenState::ExclusiveFullscreen(m);
                                actions.push(WindowAction::SetFullscreen(FullscreenState::ExclusiveFullscreen(m)));
                                assert(actions@ =~= session_actions(*old(self), e, modes_view(modes)));
                            },
                            None => {},
                        }
                    },
                    None => {},
                }
            },
        }
    }
}

} // verus!
