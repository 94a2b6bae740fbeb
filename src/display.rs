use vstd::prelude::*;

verus! {

/// One video mode a display offers, as the platform enumerates it.
#[derive(Clone, Copy, Debug, PartialEq, Eq, Structural)]
pub struct VideoMode {
    pub width: u32,
    pub height: u32,
    pub refresh_rate_millihertz: u32,
    pub bit_depth: u16,
}

/// Width of the windowed size used when no display mode is chosen.
pub const FALLBACK_WIDTH: u32 = 1920;

/// Height of the windowed size used when no display mode is chosen.
pub const FALLBACK_HEIGHT: u32 = 1080;

/// The mode exclusive fullscreen uses on a display: the first one enumerated,
/// not the native or the fastest one.
pub open spec fn chosen_mode(modes: Seq<VideoMode>) -> Option<VideoMode> {
    if modes.len() == 0 {
        None
    } else {
        Some(modes[0])
    }
}

/// The modes of an optional display; no display offers none.
pub open spec fn modes_of(modes: Option<&Vec<VideoMode>>) -> Seq<VideoMode> {
    match modes {
        Some(v) => v@,
        None => Seq::empty(),
    }
}

/// Picks the video mode for exclusive fullscreen from a display's modes, in
/// the order the platform enumerated them.
pub fn select_video_mode(modes: &Vec<VideoMode>) -> (r: Option<VideoMode>)
    ensures
        r == chosen_mode(modes@),
{
    if modes.len() == 0 {
        None
    } else {
        Some(modes[0])
    }
}

/// A requested inner window size, in physical pixels or in logical
/// (scale-independent) units.
#[derive(Clone, Copy, Debug, PartialEq, Eq, Structural)]
pub enum WindowSize {
    Physical { width: u32, height: u32 },
    Logical { width: u32, height: u32 },
}

/// Whether the window owns a display mode exclusively.
#[derive(Clone, Copy, Debug, PartialEq, Eq, Structural)]
pub enum FullscreenState {
    Windowed,
    ExclusiveFullscreen(VideoMode),
}

/// How the window is created: hidden, and sized by what the primary display
/// offers.
#[derive(Clone, Debug)]
pub struct WindowPlan {
    pub title: String,
    pub inner_size: WindowSize,
    pub fullscreen: FullscreenState,
    pub resizable: bool,
    pub visible: bool,
}

pub open spec fn window_title() -> Seq<char> {
    "GravSim"@
}

/// Plans the window from the primary display's modes (`None` when no primary
/// display is detected). With a mode to use, the window takes its size and
/// goes exclusive fullscreen, not resizable; otherwise, with no display or a
/// display that lists no mode, it gets the fixed windowed size. The window
/// always starts hidden.
pub fn plan_window(primary_modes: Option<&Vec<VideoMode>>) -> (r: WindowPlan)
    ensures
        r.title@ == window_title(),
        !r.visible,
        match chosen_mode(modes_of(primary_modes)) {
            Some(m) => r.inner_size == (WindowSize::Physical { width: m.width, height: m.height })
                && r.fullscreen == FullscreenState::ExclusiveFullscreen(m) && !r.resizable,
            None => r.inner_size == (WindowSize::Logical { width: FALLBACK_WIDTH, height: FALLBACK_HEIGHT })
                && r.fullscreen == FullscreenState::Windowed && r.resizable,
        },
{
    let title = String::from_str("GravSim");
    let mut plan = WindowPlan {
        title,
        inner_size: WindowSize::Logical { width: FALLBACK_WIDTH, height: FALLBACK_HEIGHT },
        fullscreen: FullscreenState::Windowed,
        resizable: true,
        visible: false,
    };
    match primary_modes {
        Some(modes) => {
            match select_video_mode(modes) {
                Some(m) => {
                    plan.inner_size = WindowSize::Physical { width: m.width, height: m.height };
                    plan.fullscreen = FullscreenState::ExclusiveFullscreen(m);
                    plan.resizable = false;
                },
                None => {},
            }
        },
        None => {},
    }
    plan
}

} // verus!
