use gravsim::display::{
    plan_window, select_video_mode, FullscreenState, VideoMode, WindowSize, FALLBACK_HEIGHT,
    FALLBACK_WIDTH,
};
use gravsim::session::{Key, WindowAction, WindowEvent, WindowSurface};
use gravsim::surface_config::{
    pick_surface_format, select_surface_format, PresentMode, SetupError, SurfaceConfig,
};
use wgpu::TextureFormat;

fn mode(width: u32, height: u32, refresh: u32) -> VideoMode {
    VideoMode { width, height, refresh_rate_millihertz: refresh, bit_depth: 32 }
}

fn windowed(width: u32, height: u32) -> WindowSurface {
    WindowSurface::new(SurfaceConfig::initial(width, height), FullscreenState::Windowed)
}

fn f11() -> WindowEvent {
    WindowEvent::KeyboardInput { key: Key::F11, pressed: true, repeat: false }
}

#[test]
fn initial_config_is_uncapped_with_two_frames_in_flight() {
    let c = SurfaceConfig::initial(800, 600);
    assert_eq!(c.width, 800);
    assert_eq!(c.height, 600);
    assert_eq!(c.present_mode, PresentMode::Immediate);
    assert_eq!(c.max_frame_latency, 2);
}

#[test]
fn zero_sized_resize_leaves_config_unchanged() {
    for (w, h) in [(0u32, 0u32), (0, 720), (1280, 0)] {
        let mut s = windowed(1920, 1080);
        let before = s;
        assert!(!s.resize(w, h));
        assert_eq!(s, before);
        let actions = s.handle_event(WindowEvent::Resized { width: w, height: h }, None);
        assert!(actions.is_empty());
        assert_eq!(s, before);
    }
}

#[test]
fn resize_then_query_gives_exact_size() {
    let mut s = windowed(1920, 1080);
    assert!(s.resize(1280, 720));
    assert_eq!((s.width(), s.height()), (1280, 720));
    let actions = s.handle_event(WindowEvent::Resized { width: 1, height: u32::MAX }, None);
    assert_eq!(actions, vec![WindowAction::ConfigureSurface]);
    assert_eq!((s.width(), s.height()), (1, u32::MAX));
    assert_eq!(s.config.present_mode, PresentMode::Immediate);
}

#[test]
fn toggle_on_two_mode_display_uses_first_mode() {
    let modes = vec![mode(2560, 1440, 144000), mode(1920, 1080, 60000)];
    let mut s = windowed(1920, 1080);
    assert!(s.needs_display_modes(f11()));
    let actions = s.handle_event(f11(), Some(&modes));
    assert_eq!(s.fullscreen, FullscreenState::ExclusiveFullscreen(modes[0]));
    assert_ne!(s.fullscreen, FullscreenState::ExclusiveFullscreen(modes[1]));
    assert_eq!((s.width(), s.height()), (2560, 1440));
    assert_eq!(
        actions,
        vec![
            WindowAction::RequestInnerSize(WindowSize::Physical { width: 2560, height: 1440 }),
            WindowAction::ConfigureSurface,
            WindowAction::SetFullscreen(FullscreenState::ExclusiveFullscreen(modes[0])),
        ]
    );
}

#[test]
fn toggle_twice_restores_windowed_size() {
    let modes = vec![mode(2560, 1440, 144000), mode(1920, 1080, 60000)];
    let mut s = windowed(FALLBACK_WIDTH, FALLBACK_HEIGHT);
    let before = s;
    s.handle_event(f11(), Some(&modes));
    assert!(!s.needs_display_modes(f11()));
    let actions = s.handle_event(f11(), None);
    assert_eq!(s, before);
    assert_eq!(
        actions,
        vec![
            WindowAction::SetFullscreen(FullscreenState::Windowed),
            WindowAction::RequestInnerSize(WindowSize::Physical { width: 1920, height: 1080 }),
            WindowAction::ConfigureSurface,
        ]
    );
}

#[test]
fn toggle_without_display_or_modes_does_nothing() {
    let mut s = windowed(800, 600);
    let before = s;
    assert!(s.handle_event(f11(), None).is_empty());
    assert_eq!(s, before);
    let empty: Vec<VideoMode> = Vec::new();
    assert!(s.handle_event(f11(), Some(&empty)).is_empty());
    assert_eq!(s, before);
}

#[test]
fn held_or_released_key_does_not_toggle() {
    let modes = vec![mode(2560, 1440, 144000)];
    let mut s = windowed(800, 600);
    let before = s;
    let held = WindowEvent::KeyboardInput { key: Key::F11, pressed: true, repeat: true };
    let released = WindowEvent::KeyboardInput { key: Key::F11, pressed: false, repeat: false };
    let other = WindowEvent::KeyboardInput { key: Key::Other, pressed: true, repeat: false };
    for e in [held, released, other] {
        assert!(!s.needs_display_modes(e));
        assert!(s.handle_event(e, Some(&modes)).is_empty());
        assert_eq!(s, before);
    }
}

#[test]
fn close_in_exclusive_fullscreen_ends_loop() {
    let m = mode(2560, 1440, 144000);
    let mut s = WindowSurface::new(SurfaceConfig::initial(2560, 1440), FullscreenState::ExclusiveFullscreen(m));
    let actions = s.handle_event(WindowEvent::CloseRequested, None);
    assert_eq!(actions, vec![WindowAction::Exit]);
    assert!(!s.running);
    assert_eq!(s.fullscreen, FullscreenState::ExclusiveFullscreen(m));
    assert!(s.handle_event(WindowEvent::RedrawRequested, None).is_empty());
}

#[test]
fn redraw_asks_for_a_frame() {
    let mut s = windowed(800, 600);
    assert_eq!(s.handle_event(WindowEvent::RedrawRequested, None), vec![WindowAction::Render]);
    assert!(s.handle_event(WindowEvent::Other, None).is_empty());
}

#[test]
fn focus_loss_in_fullscreen_minimizes_and_focus_restores() {
    let m = mode(2560, 1440, 144000);
    let mut s = WindowSurface::new(SurfaceConfig::initial(2560, 1440), FullscreenState::ExclusiveFullscreen(m));
    assert_eq!(s.handle_event(WindowEvent::Focused(false), None), vec![WindowAction::SetMinimized(true)]);
    assert!(s.minimized_for_focus);
    assert_eq!(s.handle_event(WindowEvent::Focused(true), None), vec![WindowAction::SetMinimized(false)]);
    assert!(!s.minimized_for_focus);
    assert!(s.handle_event(WindowEvent::Focused(true), None).is_empty());
}

#[test]
fn focus_loss_when_windowed_does_nothing() {
    let mut s = windowed(800, 600);
    assert!(s.handle_event(WindowEvent::Focused(false), None).is_empty());
    assert!(!s.minimized_for_focus);
}

#[test]
fn first_enumerated_mode_is_selected() {
    let modes = vec![mode(1280, 720, 60000), mode(3840, 2160, 120000)];
    assert_eq!(select_video_mode(&modes), Some(mode(1280, 720, 60000)));
    assert_eq!(select_video_mode(&Vec::new()), None);
}

#[test]
fn window_plan_follows_primary_display() {
    let modes = vec![mode(2560, 1440, 144000), mode(1920, 1080, 60000)];
    let p = plan_window(Some(&modes));
    assert_eq!(p.title, "GravSim");
    assert_eq!(p.inner_size, WindowSize::Physical { width: 2560, height: 1440 });
    assert_eq!(p.fullscreen, FullscreenState::ExclusiveFullscreen(modes[0]));
    assert!(!p.resizable);
    assert!(!p.visible);

    let p = plan_window(None);
    assert_eq!(p.inner_size, WindowSize::Logical { width: 1920, height: 1080 });
    assert_eq!(p.fullscreen, FullscreenState::Windowed);
    assert!(!p.visible);

    let p = plan_window(Some(&Vec::new()));
    assert_eq!(p.inner_size, WindowSize::Logical { width: 1920, height: 1080 });
    assert_eq!(p.fullscreen, FullscreenState::Windowed);
    assert!(p.resizable);
}

#[test]
fn surface_needs_positive_area() {
    assert!(SurfaceConfig::initial(1, 1).has_area());
    assert!(!SurfaceConfig::initial(0, 1080).has_area());
    assert!(!SurfaceConfig::initial(1920, 0).has_area());
}

#[test]
fn surface_format_is_first_srgb() {
    assert_eq!(select_surface_format(&vec![false, true, true]), Ok(1));
    assert_eq!(select_surface_format(&vec![true]), Ok(0));
    assert_eq!(select_surface_format(&vec![false, false]), Err(SetupError::NoSrgbFormat));
    assert_eq!(select_surface_format(&Vec::new()), Err(SetupError::NoSrgbFormat));
}

#[test]
fn picked_surface_format_is_first_srgb() {
    assert_eq!(
        pick_surface_format(&vec![TextureFormat::Rgba8Unorm, TextureFormat::Bgra8UnormSrgb, TextureFormat::Rgba8UnormSrgb]),
        Ok(1)
    );
    assert_eq!(pick_surface_format(&vec![TextureFormat::Rgba8UnormSrgb]), Ok(0));
    assert_eq!(
        pick_surface_format(&vec![TextureFormat::Rgba8Unorm, TextureFormat::Bgra8Unorm]),
        Err(SetupError::NoSrgbFormat)
    );
    assert_eq!(pick_surface_format(&Vec::new()), Err(SetupError::NoSrgbFormat));
}
