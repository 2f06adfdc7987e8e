use bvparty::commands::{
    Attachment, BindGroup, Bindings, BufferWrite, Color, CommandEncoder, DepthLoad, IndexFormat,
    LoadOp, Queue, RenderPassCommand,
};
use bvparty::driver::{
    Action, Event, Phase, Signal, State, StateError, SurfaceError, EXIT_FATAL, EXIT_OK,
    FEEDBACK_TARGET_SIZE,
};
use bvparty::obj_mesh_test::MeshPassError;
use bvparty::obj_parser::{Corner, Face, Mesh};
use bvparty::score::stock_timeline;
use bvparty::texture::TextureFormat;
use bvparty::timeline::{CameraPreset, OverlayTexture};
use bvparty::uniforms::{ElementState, MouseButton};

fn mesh_of(triangles: u32) -> Mesh {
    let corner = |p| Corner { position: p, tex_coord: 0, normal: 0 };
    let mut mesh = Mesh::new();
    mesh.corners = vec![corner(0), corner(1), corner(2)];
    for _ in 0..triangles {
        mesh.faces.extend([0, 1, 2]);
        mesh.feces.push(Face { face_indices: [0, 1, 2] });
    }
    mesh
}

fn state_with(dancers: usize) -> State {
    let frames: Vec<Mesh> = (0..dancers).map(|i| mesh_of(i as u32 + 1)).collect();
    State::new(960, 540, TextureFormat::Rgba8Unorm, &mesh_of(10), &frames, stock_timeline())
        .unwrap()
}

fn running(dancers: usize) -> State {
    let mut state = state_with(dancers);
    state.handle(Event::Resized { width: 960, height: 540 });
    state
}

fn frame_of(action: Action) -> (Vec<BufferWrite>, Vec<RenderPassCommand>) {
    match action {
        Action::Render(frame) => (frame.uploads, frame.passes),
        other => panic!("expected a frame, got {other:?}"),
    }
}

fn quad(pass: u32, target: Attachment, input: BindGroup, color_load: LoadOp) -> RenderPassCommand {
    RenderPassCommand {
        pass,
        target,
        color_load,
        depth_load: None,
        bindings: Bindings::Sampled { input },
        index_format: IndexFormat::Uint16,
        index_count: 6,
    }
}

fn mesh(pass: u32, index_count: u32, clear: bool) -> RenderPassCommand {
    RenderPassCommand {
        pass,
        target: Attachment::Surface,
        color_load: if clear { LoadOp::Clear(Color::opaque_black()) } else { LoadOp::Load },
        depth_load: Some(if clear { DepthLoad::Clear } else { DepthLoad::Load }),
        bindings: Bindings::Mesh,
        index_format: IndexFormat::Uint32,
        index_count,
    }
}

fn scene(dancer: Option<(u32, u32)>) -> Vec<RenderPassCommand> {
    let backdrop = LoadOp::Clear(Color::background());
    let mut passes = vec![
        quad(0, Attachment::Target(0), BindGroup::Target(1), backdrop),
        quad(1, Attachment::Target(1), BindGroup::Target(0), backdrop),
        quad(2, Attachment::Surface, BindGroup::Target(0), backdrop),
        mesh(4, 30, true),
    ];
    if let Some((frame, indices)) = dancer {
        passes.push(mesh(5 + frame, indices, false));
    }
    passes
}

#[test]
fn phases_follow_their_signals() {
    assert_eq!(Phase::Uninitialized.next(Signal::Built), Phase::Configured);
    assert_eq!(Phase::Uninitialized.next(Signal::Redraw), Phase::Uninitialized);
    assert_eq!(Phase::Uninitialized.next(Signal::Reconfigure), Phase::Uninitialized);
    assert_eq!(Phase::Configured.next(Signal::Redraw), Phase::Configured);
    assert_eq!(Phase::Configured.next(Signal::Reconfigure), Phase::Resizing);
    assert_eq!(Phase::Resizing.next(Signal::Redraw), Phase::Running);
    assert_eq!(Phase::Resizing.next(Signal::Reconfigure), Phase::Resizing);
    assert_eq!(Phase::Running.next(Signal::Redraw), Phase::Running);
    assert_eq!(Phase::Running.next(Signal::Reconfigure), Phase::Resizing);
    assert_eq!(Phase::Running.next(Signal::Built), Phase::Running);
    for phase in
        [Phase::Uninitialized, Phase::Configured, Phase::Running, Phase::Resizing, Phase::Terminated]
    {
        assert_eq!(phase.next(Signal::Quit), Phase::Terminated);
        assert_eq!(phase.next(Signal::Other), phase);
    }
    for signal in [Signal::Built, Signal::Reconfigure, Signal::Redraw, Signal::Quit, Signal::Other] {
        assert_eq!(Phase::Terminated.next(signal), Phase::Terminated);
    }
}

#[test]
fn composition_starts_configured_and_at_rest() {
    let state = state_with(3);
    assert_eq!(state.phase(), Phase::Configured);
    assert_eq!(state.size(), (960, 540));
    assert_eq!(state.surface_format(), TextureFormat::Rgba8Unorm);
    assert_eq!((state.depth_texture().width, state.depth_texture().height), (960, 540));
    assert_eq!(state.uniforms().elapsed_us, 0);
    assert_eq!((state.uniforms().width, state.uniforms().height), (0, 0));
    assert_eq!(state.dancer_len(), 3);
    assert_eq!(state.dancer_frame(), Some(0));
    assert_eq!(state.camera(), CameraPreset::Drift);
    assert_eq!(state.timeline().rule_count(), 51);
    assert_eq!(state.buffer_a().id, 0);
    assert_eq!(state.buffer_b().id, 1);
    assert_eq!(state.buffer_screen().id, 2);
    assert_eq!(state.fs_quad().id, 3);
    assert_eq!(state.obj_mesh_test().id, 4);
    assert_eq!(state.obj_mesh_test().num_indices, 30);
    assert_eq!(state.dancer(2).unwrap().id, 7);
    assert_eq!(state.dancer(2).unwrap().num_indices, 9);
    assert!(state.dancer(3).is_none());
    assert_eq!(state.buffer_a().target_rtt.width, FEEDBACK_TARGET_SIZE);
    assert_eq!(state.buffer_b().target_rtt.height, 8192);
}

#[test]
fn setup_reports_what_is_wrong() {
    let format = TextureFormat::Rgba8Unorm;
    let make = |w, h, world: &Mesh, dancers: &Vec<Mesh>| {
        State::new(w, h, format, world, dancers, stock_timeline()).map(|_| ())
    };
    let good = mesh_of(1);
    let mut stray = mesh_of(1);
    stray.faces[0] = 7;
    assert_eq!(make(0, 540, &good, &vec![]), Err(StateError::ZeroSurface));
    assert_eq!(make(960, 0, &Mesh::new(), &vec![]), Err(StateError::ZeroSurface));
    assert_eq!(
        make(960, 540, &Mesh::new(), &vec![mesh_of(0)]),
        Err(StateError::World(MeshPassError::EmptyMesh))
    );
    assert_eq!(
        make(960, 540, &stray, &vec![]),
        Err(StateError::World(MeshPassError::IndexOutOfRange))
    );
    assert_eq!(
        make(960, 540, &good, &vec![mesh_of(1), mesh_of(0), mesh_of(0)]),
        Err(StateError::Dancer { frame: 1, error: MeshPassError::EmptyMesh })
    );
    assert_eq!(make(960, 540, &good, &vec![]), Ok(()));
}

#[test]
fn no_frame_before_the_surface_is_sized() {
    let mut state = state_with(2);
    let action = state.handle(Event::RedrawRequested { song_ms: 0, delta_us: 16_000 });
    assert!(matches!(action, Action::Idle));
    assert_eq!(state.phase(), Phase::Configured);
    assert_eq!(state.uniforms().elapsed_us, 0);
    assert_eq!(state.dancer_frame(), Some(0));
}

#[test]
fn first_frame_has_the_passes_in_order_and_no_overlay() {
    let mut state = running(2);
    assert_eq!(state.phase(), Phase::Resizing);
    // song time 200 ms: neither flash is open, so pointer and animation rest
    let action = state.handle(Event::RedrawRequested { song_ms: 200, delta_us: 0 });
    assert_eq!(state.phase(), Phase::Running);
    let (uploads, passes) = frame_of(action);
    assert_eq!(passes, scene(Some((0, 3))));
    assert_eq!(uploads.len(), 3);
    match uploads[0] {
        BufferWrite::Uniforms(block) => {
            assert_eq!(block.elapsed_us, 0);
            assert_eq!((block.width, block.height), (960, 540));
            assert_eq!((block.mouse_x, block.mouse_y), (0, 0));
            assert!(!block.left_down && !block.right_down);
        }
        other => panic!("expected the uniform block, got {other:?}"),
    }
    assert_eq!(uploads[1], BufferWrite::Model(4));
    assert_eq!(uploads[2], BufferWrite::Camera { preset: CameraPreset::Drift, elapsed_us: 0 });
}

#[test]
fn feedback_passes_read_each_other_and_never_themselves() {
    let mut state = running(1);
    for frame in 0..5u64 {
        let (_, passes) =
            frame_of(state.handle(Event::RedrawRequested { song_ms: 200 + frame, delta_us: 16_667 }));
        assert_eq!(passes[0].target, Attachment::Target(0));
        assert_eq!(passes[0].bindings, Bindings::Sampled { input: BindGroup::Target(1) });
        assert_eq!(passes[1].target, Attachment::Target(1));
        assert_eq!(passes[1].bindings, Bindings::Sampled { input: BindGroup::Target(0) });
        for pass in &passes {
            assert!(!pass.reads_own_target());
        }
        let writers_of = |target| passes.iter().filter(|p| p.target == target).count();
        assert_eq!(writers_of(Attachment::Target(0)), 1);
        assert_eq!(writers_of(Attachment::Target(1)), 1);
        assert!(passes[2..].iter().all(|p| p.target == Attachment::Surface));
    }
}

#[test]
fn overlays_are_drawn_last_without_clearing() {
    let mut state = running(1);
    // 75.5 s: credits frame 0 is on, nothing else
    let (_, passes) =
        frame_of(state.handle(Event::RedrawRequested { song_ms: 200, delta_us: 75_500_000 }));
    let mut expected = scene(Some((0, 3)));
    expected.push(quad(
        3,
        Attachment::Surface,
        BindGroup::Overlay(OverlayTexture::Credits(0)),
        LoadOp::Load,
    ));
    assert_eq!(passes, expected);
}

#[test]
fn simultaneous_overlays_are_layered_in_table_order() {
    let mut state = running(0);
    // 0.3 s: the logo flashes; nothing else yet
    let (_, passes) =
        frame_of(state.handle(Event::RedrawRequested { song_ms: 200, delta_us: 300_000 }));
    assert_eq!(passes.len(), 5);
    assert_eq!(
        passes[4].bindings,
        Bindings::Sampled { input: BindGroup::Overlay(OverlayTexture::Logo) }
    );
    assert_eq!(passes[4].color_load, LoadOp::Load);
}

#[test]
fn composition_without_animation_draws_no_animation_pass() {
    let mut state = running(0);
    assert_eq!(state.dancer_frame(), None);
    let (_, passes) = frame_of(state.handle(Event::RedrawRequested { song_ms: 0, delta_us: 0 }));
    assert_eq!(passes, scene(None));
    assert_eq!(state.dancer_frame(), None);
}

#[test]
fn animation_advances_on_the_fast_flash_and_wraps() {
    let mut state = running(3);
    // a quarter beat is 117 ms; the flash is open for its first 60 ms
    let mut frames = vec![];
    for song_ms in [0, 61, 117, 234, 300, 351, 468] {
        state.draw_sync_test(song_ms);
        frames.push(state.dancer_frame().unwrap());
    }
    assert_eq!(frames, vec![1, 1, 2, 0, 0, 1, 2]);
    for tick in 0..1000u64 {
        state.draw_sync_test(tick * 117);
        assert!(state.dancer_frame().unwrap() < 3);
    }
    assert_eq!(state.dancer_frame().unwrap(), (2 + 1000) % 3);
}

#[test]
fn animation_frame_selects_its_pass() {
    let mut state = running(3);
    let (_, passes) = frame_of(state.handle(Event::RedrawRequested { song_ms: 0, delta_us: 0 }));
    assert_eq!(passes[4], mesh(6, 6, false));
    let (_, passes) = frame_of(state.handle(Event::RedrawRequested { song_ms: 117, delta_us: 0 }));
    assert_eq!(passes[4], mesh(7, 9, false));
    let (_, passes) = frame_of(state.handle(Event::RedrawRequested { song_ms: 234, delta_us: 0 }));
    assert_eq!(passes[4], mesh(5, 3, false));
}

#[test]
fn beat_flash_clicks_in_the_middle_of_the_surface() {
    let mut state = running(0);
    state.handle(Event::Resized { width: 801, height: 600 });
    state.draw_sync_test(469 + 55);
    let block = state.uniforms();
    assert_eq!((block.mouse_x, block.mouse_y), (801 * 128, 600 * 128));
    assert!(block.left_down);
    state.update_mousexy(5, 6);
    state.draw_sync_test(469 + 56);
    let block = state.uniforms();
    assert_eq!((block.mouse_x, block.mouse_y), (5, 6));
    assert!(!block.left_down);
}

#[test]
fn resize_moves_resolution_and_depth_but_not_feedback() {
    let mut state = running(1);
    let action = state.handle(Event::Resized { width: 1280, height: 720 });
    assert!(matches!(action, Action::Reconfigure { width: 1280, height: 720 }));
    assert_eq!(state.phase(), Phase::Resizing);
    assert_eq!(state.size(), (1280, 720));
    assert_eq!((state.uniforms().width, state.uniforms().height), (1280, 720));
    assert_eq!((state.depth_texture().width, state.depth_texture().height), (1280, 720));
    assert_eq!(state.depth_texture().format, TextureFormat::Depth32Float);
    assert_eq!(state.buffer_a().target_rtt.width, 8192);
    assert_eq!(state.buffer_a().target_rtt.height, 8192);
    assert_eq!(state.buffer_b().target_rtt.width, 8192);
    assert!(state.resize(1, 1));
    assert_eq!(state.size(), (1, 1));
}

#[test]
fn resize_without_extent_is_ignored() {
    let mut state = running(1);
    state.handle(Event::RedrawRequested { song_ms: 200, delta_us: 5 });
    for (width, height) in [(0, 720), (1280, 0), (0, 0)] {
        let before = state.uniforms();
        let action = state.handle(Event::Resized { width, height });
        assert!(matches!(action, Action::Idle));
        assert_eq!(state.phase(), Phase::Running);
        assert_eq!(state.size(), (960, 540));
        assert_eq!(state.uniforms(), before);
        assert_eq!((state.depth_texture().width, state.depth_texture().height), (960, 540));
        assert!(!state.resize(width, height));
    }
}

#[test]
fn lost_surface_is_reconfigured_and_the_next_frame_presented() {
    for error in [SurfaceError::Lost, SurfaceError::Outdated] {
        let mut state = running(1);
        state.handle(Event::Resized { width: 640, height: 480 });
        frame_of(state.handle(Event::RedrawRequested { song_ms: 200, delta_us: 1000 }));
        let action = state.handle(Event::SurfaceFailed(error));
        assert!(matches!(action, Action::Reconfigure { width: 640, height: 480 }));
        assert_eq!(state.phase(), Phase::Resizing);
        assert_eq!((state.depth_texture().width, state.depth_texture().height), (640, 480));
        let (uploads, passes) =
            frame_of(state.handle(Event::RedrawRequested { song_ms: 217, delta_us: 1000 }));
        assert_eq!(state.phase(), Phase::Running);
        // two milliseconds in, the logo flash is open
        let mut expected = scene(Some((0, 3)));
        expected.push(quad(
            3,
            Attachment::Surface,
            BindGroup::Overlay(OverlayTexture::Logo),
            LoadOp::Load,
        ));
        assert_eq!(passes, expected);
        assert!(matches!(uploads[0], BufferWrite::Uniforms(block) if block.elapsed_us == 2000));
    }
}

#[test]
fn timeout_skips_the_frame_and_goes_on() {
    let mut state = running(1);
    frame_of(state.handle(Event::RedrawRequested { song_ms: 200, delta_us: 1000 }));
    let action = state.handle(Event::SurfaceFailed(SurfaceError::Timeout));
    assert!(matches!(action, Action::SkipFrame));
    assert_eq!(state.phase(), Phase::Running);
    frame_of(state.handle(Event::RedrawRequested { song_ms: 200, delta_us: 1000 }));
}

#[test]
fn out_of_memory_is_fatal() {
    let mut state = running(1);
    let action = state.handle(Event::SurfaceFailed(SurfaceError::OutOfMemory));
    assert!(matches!(action, Action::Exit { code: EXIT_FATAL }));
    assert_ne!(EXIT_FATAL, 0);
    assert_eq!(state.phase(), Phase::Terminated);
}

#[test]
fn close_and_escape_end_with_success() {
    for event in [Event::CloseRequested, Event::EscapePressed] {
        for mut state in [state_with(0), running(0)] {
            let action = state.handle(event);
            assert!(matches!(action, Action::Exit { code: 0 }));
            assert_eq!(EXIT_OK, 0);
            assert_eq!(state.phase(), Phase::Terminated);
        }
    }
}

#[test]
fn nothing_happens_after_termination() {
    let mut state = running(2);
    state.handle(Event::CloseRequested);
    let before = state.uniforms();
    for event in [
        Event::RedrawRequested { song_ms: 0, delta_us: 1_000_000 },
        Event::Resized { width: 5, height: 5 },
        Event::SurfaceFailed(SurfaceError::Lost),
        Event::SurfaceFailed(SurfaceError::OutOfMemory),
        Event::CursorMoved { x: 1, y: 1 },
        Event::MouseInput { state: ElementState::Pressed, button: MouseButton::Left },
        Event::CloseRequested,
    ] {
        assert!(matches!(state.handle(event), Action::Idle));
        assert_eq!(state.phase(), Phase::Terminated);
        assert_eq!(state.uniforms(), before);
        assert_eq!(state.size(), (960, 540));
        assert_eq!(state.dancer_frame(), Some(0));
    }
}

#[test]
fn input_reaches_the_uniform_block() {
    let mut state = state_with(0);
    assert!(matches!(state.handle(Event::CursorMoved { x: 2560, y: -256 }), Action::Idle));
    assert_eq!((state.uniforms().mouse_x, state.uniforms().mouse_y), (2560, -256));
    let press = |button| Event::MouseInput { state: ElementState::Pressed, button };
    let release = |button| Event::MouseInput { state: ElementState::Released, button };
    state.handle(press(MouseButton::Left));
    state.handle(press(MouseButton::Right));
    state.handle(press(MouseButton::Middle));
    assert!(state.uniforms().left_down && state.uniforms().right_down);
    state.handle(release(MouseButton::Left));
    state.handle(release(MouseButton::Other));
    assert!(!state.uniforms().left_down && state.uniforms().right_down);
    state.update_mouse_event(&ElementState::Released, &MouseButton::Right);
    assert!(!state.uniforms().right_down);
    assert_eq!(state.phase(), Phase::Configured);
    assert!(!state.input(&Event::CloseRequested));
    assert_eq!(state.phase(), Phase::Configured);
}

#[test]
fn update_advances_time_and_queues_three_uploads() {
    let mut state = running(0);
    let mut queue = Queue::new();
    state.update(40 * 469_000, &mut queue);
    state.update(0, &mut queue);
    assert_eq!(state.uniforms().elapsed_us, 40 * 469_000);
    assert_eq!(state.camera(), CameraPreset::Rear);
    assert_eq!(queue.writes.len(), 6);
    assert_eq!(queue.writes[3], queue.writes[0]);
    assert_eq!(queue.writes[1], BufferWrite::Model(4));
    assert_eq!(
        queue.writes[5],
        BufferWrite::Camera { preset: CameraPreset::Rear, elapsed_us: 40 * 469_000 }
    );
}

#[test]
fn render_appends_to_what_is_recorded() {
    let state = running(1);
    let mut encoder = CommandEncoder::new();
    encoder.record(mesh(99, 3, true));
    state.render(&mut encoder);
    let passes = encoder.finish();
    assert_eq!(passes[0], mesh(99, 3, true));
    assert_eq!(passes[1..], scene(Some((0, 3)))[..]);
}

#[test]
fn camera_follows_the_beat_counter() {
    let mut state = running(0);
    let (uploads, _) =
        frame_of(state.handle(Event::RedrawRequested { song_ms: 200, delta_us: 96 * 469_000 }));
    assert_eq!(
        uploads[2],
        BufferWrite::Camera { preset: CameraPreset::Sweep, elapsed_us: 96 * 469_000 }
    );
    assert_eq!(state.camera(), CameraPreset::Sweep);
}
