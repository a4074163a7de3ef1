use slint_shader::clock::AnimationClock;
use slint_shader::renderer::Frame;
use slint_shader::renderer::ShaderRenderer;
use slint_shader::shaders::RAINBOW_SHADER;
use slint_shader::uniform::TimeUniform;
use std::time::Duration;
use std::time::Instant;

const SECOND: u64 = 1_000_000_000;

fn wait(duration: Duration) {
    let start = Instant::now();
    while start.elapsed() < duration {
        std::hint::spin_loop();
    }
}

fn seconds(frame: Frame) -> f32 {
    Duration::from_nanos(frame.effective_time).as_secs_f32()
}

#[test]
fn new_renderer_keeps_its_program_and_starts_running() {
    let renderer = ShaderRenderer::new(RAINBOW_SHADER);
    assert_eq!(renderer.shader_source(), RAINBOW_SHADER);
    let clock: AnimationClock = renderer.clock();
    assert_eq!(clock.frozen_time(), None);
    assert_eq!(clock.total_paused_duration(), 0);
}

#[test]
fn render_at_follows_the_pause_and_resume_scenario() {
    let mut renderer = ShaderRenderer::new("effect");

    let frame = renderer.render_at(SECOND, true);
    assert_eq!(frame, Frame { effective_time: SECOND });
    assert_eq!(seconds(frame), 1.0);

    let frame = renderer.render_at(2 * SECOND, false);
    assert_eq!(frame, Frame { effective_time: 2 * SECOND });
    assert_eq!(renderer.clock().frozen_time(), Some(2 * SECOND));
    assert_eq!(seconds(frame), 2.0);

    let frame = renderer.render_at(5 * SECOND, false);
    assert_eq!(frame, Frame { effective_time: 2 * SECOND });
    assert_eq!(seconds(frame), 2.0);

    let frame = renderer.render_at(6 * SECOND, true);
    assert_eq!(frame, Frame { effective_time: 2 * SECOND });
    assert_eq!(renderer.clock().total_paused_duration(), 4 * SECOND);
    assert_eq!(seconds(frame), 2.0);

    let frame = renderer.render_at(7 * SECOND, true);
    assert_eq!(frame, Frame { effective_time: 3 * SECOND });
    assert_eq!(seconds(frame), 3.0);

    assert_eq!(renderer.shader_source(), "effect");
}

#[test]
fn render_at_leaves_the_program_alone() {
    let mut renderer = ShaderRenderer::new(RAINBOW_SHADER);
    for n in 0..100u64 {
        renderer.render_at(n * 16_000_000, n % 3 != 0);
        assert_eq!(renderer.shader_source(), RAINBOW_SHADER);
    }
}

#[test]
fn render_with_animation_enabled_never_goes_back() {
    let mut renderer = ShaderRenderer::new("effect");
    let mut last = renderer.render(true);
    for _ in 0..50 {
        let frame = renderer.render(true);
        assert!(frame.effective_time >= last.effective_time);
        last = frame;
    }
    wait(Duration::from_millis(2));
    let frame = renderer.render(true);
    assert!(frame.effective_time >= last.effective_time + 2_000_000);
}

#[test]
fn render_with_animation_disabled_holds_the_time() {
    let mut renderer = ShaderRenderer::new("effect");
    wait(Duration::from_millis(1));
    let frozen = renderer.render(false);
    assert!(frozen.effective_time >= 1_000_000);
    for _ in 0..10 {
        wait(Duration::from_millis(1));
        assert_eq!(renderer.render(false), frozen);
    }
    assert_eq!(renderer.clock().frozen_time(), Some(frozen.effective_time));
}

#[test]
fn render_resumes_without_a_jump() {
    let mut renderer = ShaderRenderer::new("effect");
    let running = renderer.render(true);
    wait(Duration::from_millis(1));
    let paused = renderer.render(false);
    assert!(paused.effective_time > running.effective_time);
    wait(Duration::from_millis(3));
    assert_eq!(renderer.render(false), paused);
    wait(Duration::from_millis(3));
    let resumed = renderer.render(true);
    assert_eq!(resumed, paused);
    assert!(renderer.clock().total_paused_duration() >= 6_000_000);
    wait(Duration::from_millis(1));
    let later = renderer.render(true);
    assert!(later.effective_time >= resumed.effective_time + 1_000_000);
}

#[test]
fn frame_time_becomes_the_uniform_of_the_frame() {
    let mut renderer = ShaderRenderer::new("effect");
    let frame = renderer.render_at(1_500_000_000, true);
    let uniform = TimeUniform { time: seconds(frame).to_bits() };
    let bytes = uniform.to_bytes();
    assert_eq!(&bytes[0..4], &1.5f32.to_ne_bytes()[..]);
    assert_eq!(&bytes[4..], &[0u8; 12][..]);
}
