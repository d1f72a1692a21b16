use atelier::frame_loop::LoopSlot;
use atelier::frame_state::{FrameState, PixelRatio};
use atelier::shader_work::{DrawCall, FrameAction, ShaderWork, Slug};
use atelier::surface::SurfaceSizing;
use atelier::uniform::Uniform;

fn whole(n: u32) -> PixelRatio {
    PixelRatio::new(n, 1).unwrap()
}

fn state_at(w: u32, h: u32, ratio: u32) -> FrameState {
    let mut s = FrameState::new(whole(ratio));
    s.on_resize(w, h);
    s
}

#[test]
fn hello_triangle_first_frame_draws_three_vertices_without_uniforms() {
    let state = state_at(300, 150, 1);
    let mut work = ShaderWork::new(Slug::HelloTriangle, &state);
    assert_eq!((work.sizing.width, work.sizing.height), (300, 150));
    let prep = work.begin_frame(&state, 16);
    assert_eq!(prep.reconfigure, None);
    assert_eq!(prep.upload, None);
    assert!(!work.plan.uniform);
    assert_eq!(work.uniform, Uniform::new());
    assert_eq!(work.frame_action(true), FrameAction::Render(DrawCall { count: 3, indexed: false }));
}

#[test]
fn glslsandbox_pointer_move_reaches_next_uniform() {
    let mut state = state_at(300, 150, 1);
    let mut work = ShaderWork::new(Slug::GlslsandboxExample, &state);
    assert!(state.on_pointer_move(120, 40));
    let prep = work.begin_frame(&state, 16);
    let u = prep.upload.unwrap();
    assert_eq!(u.mouse, (120, 40));
    assert_eq!((u.mouse.0 as f32, u.mouse.1 as f32), (120.0, 40.0));
    assert_eq!(u.resolution, (300, 150));
    assert_eq!(work.frame_action(true), FrameAction::Render(DrawCall { count: 6, indexed: true }));
}

#[test]
fn resize_at_pixel_ratio_two_reconfigures_once() {
    let mut state = state_at(300, 150, 2);
    let mut work = ShaderWork::new(Slug::GlslsandboxExample, &state);
    assert_eq!((work.sizing.width, work.sizing.height), (600, 300));
    state.on_resize(600, 150);
    let first = work.begin_frame(&state, 16);
    assert_eq!(first.reconfigure, Some((1200, 300)));
    assert_eq!((work.sizing.width, work.sizing.height), (1200, 300));
    assert_eq!(first.upload.unwrap().resolution, (1200, 300));
    for _ in 0..3 {
        let again = work.begin_frame(&state, 16);
        assert_eq!(again.reconfigure, None);
    }
    assert_eq!((work.sizing.width, work.sizing.height), (1200, 300));
}

#[test]
fn repeated_resize_events_reconfigure_only_on_change() {
    let mut state = FrameState::new(whole(1));
    let mut sizing = SurfaceSizing::new(&state);
    let events = [(100, 50), (100, 50), (200, 50), (200, 50), (100, 50)];
    let mut count = 0;
    for (w, h) in events {
        state.on_resize(w, h);
        if sizing.reconcile(&state).is_some() {
            count += 1;
        }
        assert_eq!((sizing.width, sizing.height), (w, h));
    }
    assert_eq!(count, 3);
}

#[test]
fn zero_sized_resize_is_raised_to_one_pixel() {
    let mut state = FrameState::new(whole(3));
    assert!(state.on_resize(0, 0));
    assert_eq!((state.canvas_width, state.canvas_height), (1, 1));
    assert!(!state.on_resize(0, 1));
    let sizing = SurfaceSizing::new(&state);
    assert_eq!((sizing.width, sizing.height), (3, 3));
}

#[test]
fn initial_state_before_any_resize() {
    let state = FrameState::new(whole(1));
    assert_eq!((state.canvas_width, state.canvas_height), (40, 30));
    assert_eq!(state.pointer, (0, 0));
    let sizing = SurfaceSizing::new(&state);
    assert_eq!(sizing.last_known, (40, 30));
}

#[test]
fn huge_size_saturates() {
    let state = state_at(u32::MAX, 2, 2);
    let sizing = SurfaceSizing::new(&state);
    assert_eq!((sizing.width, sizing.height), (u32::MAX, 4));
}

#[test]
fn uniform_time_accumulates_and_never_goes_back() {
    let state = state_at(300, 150, 1);
    let sizing = SurfaceSizing::new(&state);
    let mut u = Uniform::new();
    u.update(&sizing, 16, &state);
    assert_eq!(u.time_ms, 16);
    u.update(&sizing, 17, &state);
    assert_eq!(u.time_ms, 33);
    u.update(&sizing, -5, &state);
    assert_eq!(u.time_ms, 33);
    u.update(&sizing, 0, &state);
    assert_eq!(u.time_ms, 33);
    u.time_ms = u64::MAX - 1;
    u.update(&sizing, 10, &state);
    assert_eq!(u.time_ms, u64::MAX);
}

#[test]
fn uniform_frame_starts_at_one_and_counts_frames() {
    let state = state_at(300, 150, 1);
    let sizing = SurfaceSizing::new(&state);
    let mut u = Uniform::new();
    assert_eq!(u.frame, 0);
    u.update(&sizing, 16, &state);
    assert_eq!(u.frame, 1);
    for _ in 0..9 {
        u.update(&sizing, 16, &state);
    }
    assert_eq!(u.frame, 10);
    u.frame = i32::MAX;
    u.update(&sizing, 16, &state);
    assert_eq!(u.frame, i32::MIN);
}

#[test]
fn cancelled_loop_never_ticks_again() {
    let state = state_at(300, 150, 1);
    let mut slot = LoopSlot::new();
    let mut work = ShaderWork::new(Slug::GlslsandboxExample, &state);
    let h = slot.install().unwrap();
    assert!(work.tick(&slot, h, &state, 16).is_some());
    slot.cancel();
    let before = work;
    assert!(work.tick(&slot, h, &state, 16).is_none());
    assert_eq!(work, before);
    let h2 = slot.install().unwrap();
    assert_ne!(h, h2);
    assert!(!slot.is_current(h));
    assert!(work.tick(&slot, h, &state, 16).is_none());
    assert!(work.tick(&slot, h2, &state, 16).is_some());
}

#[test]
fn installing_replaces_previous_loop() {
    let mut slot = LoopSlot::new();
    let a = slot.install().unwrap();
    let b = slot.install().unwrap();
    assert!(!slot.is_current(a));
    assert!(slot.is_current(b));
    slot.next = u64::MAX;
    assert_eq!(slot.install(), None);
    assert!(slot.is_current(b));
}

#[test]
fn failed_acquisition_skips_only_that_frame() {
    let state = state_at(300, 150, 1);
    let mut slot = LoopSlot::new();
    let mut work = ShaderWork::new(Slug::GlslsandboxExample, &state);
    let h = slot.install().unwrap();
    assert!(work.tick(&slot, h, &state, 16).is_some());
    assert_eq!(work.frame_action(false), FrameAction::Skip);
    let next = work.tick(&slot, h, &state, 16).unwrap();
    assert_eq!(next.upload.unwrap().frame, 2);
    assert_eq!(work.frame_action(true), FrameAction::Render(DrawCall { count: 6, indexed: true }));
}

#[test]
fn fractional_ratio_scales_then_truncates() {
    let mut state = FrameState::new(PixelRatio::new(3, 2).unwrap());
    state.on_resize(300, 150);
    let mut sizing = SurfaceSizing::new(&state);
    assert_eq!((sizing.width, sizing.height), (450, 225));
    state.on_resize(301, 150);
    assert_eq!(sizing.reconcile(&state), Some((451, 225)));
    assert_eq!(sizing.reconcile(&state), None);
    let mut state = FrameState::new(PixelRatio::new(1_100_000, 1_000_000).unwrap());
    state.on_resize(301, 150);
    let sizing = SurfaceSizing::new(&state);
    assert_eq!((sizing.width, sizing.height), (331, 165));
}

#[test]
fn ratio_below_one_shrinks_the_surface() {
    let mut state = FrameState::new(PixelRatio::new(1, 2).unwrap());
    state.on_resize(300, 151);
    let sizing = SurfaceSizing::new(&state);
    assert_eq!((sizing.width, sizing.height), (150, 75));
}

#[test]
fn pixel_ratio_must_be_positive() {
    assert_eq!(PixelRatio::new(0, 1), None);
    assert_eq!(PixelRatio::new(1, 0), None);
    assert_eq!(PixelRatio::new(5, 4), Some(PixelRatio { num: 5, den: 4 }));
}

#[test]
fn frames_count_across_resizes_and_skips() {
    let mut state = state_at(300, 150, 1);
    let mut work = ShaderWork::new(Slug::GlslsandboxExample, &state);
    let mut last_time = 0;
    for k in 1..=20 {
        if k % 5 == 0 {
            state.on_resize(300 + k, 150);
        }
        let prep = work.begin_frame(&state, 10);
        let u = prep.upload.unwrap();
        assert_eq!(u.frame, k as i32);
        assert!(u.time_ms >= last_time);
        assert_eq!(u.time_ms, 10 * k as u64);
        last_time = u.time_ms;
        let _ = work.frame_action(k % 3 != 0);
    }
}
