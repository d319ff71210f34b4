use render_host::AcquireStatus;
use render_host::FatalKind;
use render_host::FormatInfo;
use render_host::FrameOutcome;
use render_host::KeyCode;
use render_host::StartupError;
use render_host::State;
use render_host::SurfaceCaps;
use render_host::classify_acquire;
use render_host::select_format;
use render_host::shader_declares_entry_points;
use render_host::triangle_pass_plan;

const SHADER: &str = "\
@vertex
fn vs_main(@builtin(vertex_index) i: u32) -> @builtin(position) vec4<f32> {
    let x = f32(i32(i) - 1);
    let y = f32(i32(i & 1u) * 2 - 1);
    return vec4<f32>(x, y, 0.0, 1.0);
}

@fragment
fn fs_main() -> @location(0) vec4<f32> {
    return vec4<f32>(1.0, 0.0, 0.0, 1.0);
}
";

fn caps() -> SurfaceCaps {
    SurfaceCaps {
        formats: vec![
            FormatInfo { id: 10, srgb: false },
            FormatInfo { id: 11, srgb: true },
            FormatInfo { id: 12, srgb: true },
        ],
        present_modes: vec![3, 1, 2],
        alpha_modes: vec![5, 6],
    }
}

fn fresh_state() -> State {
    State::new(800, 800, &caps(), SHADER.as_bytes()).unwrap()
}

#[test]
fn resize_then_render_presents() {
    let mut st = fresh_state();
    let reconfigure = st.resize(800, 600);
    assert!(reconfigure);
    assert!(st.is_surface_configured);
    assert_eq!(st.config.width, 800);
    assert_eq!(st.config.height, 600);
    let o = st.on_redraw(Some(AcquireStatus::Acquired), 800, 600);
    assert_eq!(o, FrameOutcome::Presented);
    assert!(st.is_surface_configured);
}

#[test]
fn resize_then_render_is_always_classified() {
    for s in [
        AcquireStatus::Acquired,
        AcquireStatus::Lost,
        AcquireStatus::Outdated,
        AcquireStatus::Timeout,
        AcquireStatus::OutOfMemory,
        AcquireStatus::Other,
    ] {
        let mut st = fresh_state();
        st.resize(640, 480);
        let o = st.on_redraw(Some(s), 640, 480);
        assert_ne!(o, FrameOutcome::SkippedUnconfigured);
        assert!(st.is_surface_configured);
    }
}

#[test]
fn zero_width_resize_is_noop() {
    let mut st = fresh_state();
    let before = st;
    let reconfigure = st.resize(0, 600);
    assert!(!reconfigure);
    assert_eq!(st, before);
    assert!(!st.is_surface_configured);
}

#[test]
fn zero_height_resize_is_noop() {
    let mut st = fresh_state();
    st.resize(800, 600);
    let before = st;
    let reconfigure = st.resize(400, 0);
    assert!(!reconfigure);
    assert_eq!(st, before);
    assert_eq!(st.config.width, 800);
    assert_eq!(st.config.height, 600);
}

#[test]
fn render_before_any_resize_is_skipped() {
    let mut st = fresh_state();
    let before = st;
    let o = st.render(None);
    assert_eq!(o, FrameOutcome::SkippedUnconfigured);
    assert_eq!(st, before);
    let o2 = st.on_redraw(None, 800, 800);
    assert_eq!(o2, FrameOutcome::SkippedUnconfigured);
    assert_eq!(st, before);
}

#[test]
fn format_selection_picks_first_srgb_entry() {
    let formats = vec![
        FormatInfo { id: 1, srgb: false },
        FormatInfo { id: 2, srgb: false },
        FormatInfo { id: 3, srgb: true },
        FormatInfo { id: 4, srgb: true },
    ];
    assert_eq!(select_format(&formats), 2);
}

#[test]
fn format_selection_falls_back_to_first_entry() {
    let formats = vec![
        FormatInfo { id: 1, srgb: false },
        FormatInfo { id: 2, srgb: false },
    ];
    assert_eq!(select_format(&formats), 0);
}

#[test]
fn negotiated_state_uses_first_listed_modes() {
    let st = fresh_state();
    assert_eq!(st.config.format, FormatInfo { id: 11, srgb: true });
    assert_eq!(st.config.present_mode, 3);
    assert_eq!(st.config.alpha_mode, 5);
    assert_eq!(st.config.frame_latency, 2);
    assert_eq!(st.config.width, 800);
    assert_eq!(st.config.height, 800);
    assert!(!st.is_surface_configured);
    assert_eq!(st.pipeline.color_format, FormatInfo { id: 11, srgb: true });
    assert_eq!(st.pipeline.sample_count, 1);
    assert!(!st.pipeline.cull_enabled);
    assert!(!st.pipeline.blend_enabled);
    assert!(!st.pipeline.depth_stencil_enabled);
    assert!(st.pipeline.write_mask_all);
    assert_eq!(st.pipeline.bind_group_layout.entry_count, 0);
    assert_eq!(st.pipeline.bind_group.entry_count, 0);
    assert_eq!(st.pipeline.bind_group.layout, st.pipeline.bind_group_layout);
}

#[test]
fn lost_surface_reconfigures_with_latest_window_size() {
    let mut st = fresh_state();
    st.resize(800, 600);
    let o = st.on_redraw(Some(AcquireStatus::Lost), 1024, 768);
    assert_eq!(o, FrameOutcome::RecoverableSurfaceError);
    assert_eq!(st.config.width, 1024);
    assert_eq!(st.config.height, 768);
    assert!(st.is_surface_configured);
}

#[test]
fn outdated_surface_reconfigures_with_latest_window_size() {
    let mut st = fresh_state();
    st.resize(800, 600);
    let o = st.on_redraw(Some(AcquireStatus::Outdated), 320, 240);
    assert_eq!(o, FrameOutcome::RecoverableSurfaceError);
    assert_eq!(st.config.width, 320);
    assert_eq!(st.config.height, 240);
}

#[test]
fn timeout_skips_frame_without_touching_state() {
    let mut st = fresh_state();
    st.resize(800, 600);
    let before = st;
    let o = st.on_redraw(Some(AcquireStatus::Timeout), 800, 600);
    assert_eq!(o, FrameOutcome::TransientAcquireTimeout);
    assert_eq!(st, before);
}

#[test]
fn out_of_memory_is_fatal_without_touching_state() {
    let mut st = fresh_state();
    st.resize(800, 600);
    let before = st;
    let o = st.on_redraw(Some(AcquireStatus::OutOfMemory), 800, 600);
    assert_eq!(o, FrameOutcome::FatalError(FatalKind::OutOfMemory));
    assert_eq!(st, before);
}

#[test]
fn acquire_classification_is_exact() {
    assert_eq!(classify_acquire(AcquireStatus::Acquired), FrameOutcome::Presented);
    assert_eq!(classify_acquire(AcquireStatus::Lost), FrameOutcome::RecoverableSurfaceError);
    assert_eq!(classify_acquire(AcquireStatus::Outdated), FrameOutcome::RecoverableSurfaceError);
    assert_eq!(classify_acquire(AcquireStatus::Timeout), FrameOutcome::TransientAcquireTimeout);
    assert_eq!(
        classify_acquire(AcquireStatus::OutOfMemory),
        FrameOutcome::FatalError(FatalKind::OutOfMemory)
    );
    assert_eq!(classify_acquire(AcquireStatus::Other), FrameOutcome::FatalError(FatalKind::Other));
}

#[test]
fn exit_key_press_requests_exit() {
    let mut st = fresh_state();
    assert!(st.handle_key(KeyCode::Escape, true));
}

#[test]
fn exit_key_release_is_ignored() {
    let mut st = fresh_state();
    assert!(!st.handle_key(KeyCode::Escape, false));
}

#[test]
fn other_keys_never_request_exit() {
    let mut st = fresh_state();
    assert!(!st.handle_key(KeyCode::Other, true));
    assert!(!st.handle_key(KeyCode::Other, false));
}

#[test]
fn shader_without_fragment_entry_fails_fatally() {
    let source = "@vertex fn vs_main() {}";
    let r = State::new(800, 800, &caps(), source.as_bytes());
    assert_eq!(r, Err(StartupError::ShaderEntryPointMissing));
}

#[test]
fn shader_without_vertex_entry_fails_fatally() {
    let source = "@fragment fn fs_main() {}";
    let r = State::new(800, 800, &caps(), source.as_bytes());
    assert_eq!(r, Err(StartupError::ShaderEntryPointMissing));
}

#[test]
fn empty_shader_fails_fatally() {
    let r = State::new(800, 800, &caps(), b"");
    assert_eq!(r, Err(StartupError::ShaderEntryPointMissing));
}

#[test]
fn entry_point_scan_finds_both_entries() {
    assert!(shader_declares_entry_points(SHADER.as_bytes()));
    assert!(!shader_declares_entry_points(b"fn vs_main"));
    assert!(!shader_declares_entry_points(b"fn fs_main"));
    assert!(shader_declares_entry_points(b"fn fs_main fn vs_main"));
    // The declarations right at the end of the source are still found.
    assert!(shader_declares_entry_points(b"fn vs_main() fn fs_main"));
    // A source shorter than the pattern never matches.
    assert!(!shader_declares_entry_points(b"fn"));
}

#[test]
fn pass_plan_is_one_black_clear_and_one_triangle_draw() {
    let plan = triangle_pass_plan();
    assert_eq!(plan.clear_red, 0);
    assert_eq!(plan.clear_green, 0);
    assert_eq!(plan.clear_blue, 0);
    assert_eq!(plan.clear_alpha, 255);
    assert_eq!(plan.vertex_count, 3);
    assert_eq!(plan.instance_count, 1);
    assert_eq!(plan.bind_group_slot, 0);
}
