//! One effect: its program and its time base.

use std::time::Instant;
use vstd::prelude::*;
use crate::clock::AnimationClock;
use crate::clock::ClockState;
use crate::time::nanos_since;

verus! {

/// What one call of a renderer produced: the frame that is to be drawn.
#[derive(Clone, Copy, Debug, PartialEq, Eq, Structural)]
pub struct Frame {
    /// The effective animation time of the frame, in nanoseconds.
    pub effective_time: u64,
}

/// A [`ShaderRenderer`] as contracts see it.
pub struct RendererState {
    /// The source text of the effect program that the renderer draws.
    pub program: Seq<char>,
    /// The instant at which the renderer was created.
    pub start_time: Instant,
    /// The state of the renderer's animation clock.
    pub clock: ClockState,
}

impl RendererState {
    /// A call at wall-clock time `elapsed` takes a renderer from `self` to
    /// `next` and produces `frame`: the clock advances, the frame carries the
    /// effective time of the call, and nothing else changes.
    pub open spec fn renders(
        self,
        elapsed: nat,
        animation_enabled: bool,
        next: RendererState,
        frame: Frame,
    ) -> bool {
        &&& next.program == self.program
        &&& next.start_time == self.start_time
        &&& next.clock == self.clock.advance(elapsed, animation_enabled)
        &&& frame.effective_time as nat == self.clock.effective_time(elapsed, animation_enabled)
    }

    /// A call at some wall-clock time that a `u64` can hold takes a renderer
    /// from `self` to `next` and produces `frame`.
    pub open spec fn renders_at_some_time(
        self,
        animation_enabled: bool,
        next: RendererState,
        frame: Frame,
    ) -> bool {
        exists|elapsed: nat|
            elapsed <= u64::MAX && #[trigger] self.renders(elapsed, animation_enabled, next, frame)
    }
}

/// Draws one effect program, frame by frame, on its own time base.
pub struct ShaderRenderer {
    shader_source: String,
    start_time: Instant,
    clock: AnimationClock,
}

impl View for ShaderRenderer {
    type V = RendererState;

    closed spec fn view(&self) -> RendererState {
        RendererState { program: self.shader_source@, start_time: self.start_time, clock: self.clock@ }
    }
}

impl ShaderRenderer {
    /// A renderer for the effect program `shader_source`. Its time base
    /// starts now, with animation running.
    pub fn new(shader_source: &str) -> (renderer: ShaderRenderer)
        ensures
            renderer@.program == shader_source@,
            renderer@.clock == ClockState::fresh(),
    {
        ShaderRenderer {
            shader_source: shader_source.to_owned(),
            start_time: Instant::now(),
            clock: AnimationClock::new(),
        }
    }

    /// Produces the next frame at the current wall-clock time.
    ///
    /// The reading of the wall clock is not known in advance: the call
    /// behaves as [`ShaderRenderer::render_at`] does for some reading.
    pub fn render(&mut self, animation_enabled: bool) -> (frame: Frame)
        ensures
            old(self)@.renders_at_some_time(animation_enabled, final(self)@, frame),
    {
        let elapsed: u64 = nanos_since(&self.start_time);
        self.render_at(elapsed, animation_enabled)
    }

    /// Produces the next frame for a call made `elapsed` nanoseconds after
    /// the renderer was created.
    pub fn render_at(&mut self, elapsed: u64, animation_enabled: bool) -> (frame: Frame)
        ensures
            old(self)@.renders(elapsed as nat, animation_enabled, final(self)@, frame),
    {
        let effective_time: u64 = self.clock.advance(elapsed, animation_enabled);
        Frame { effective_time }
    }

    /// The source text of the effect program.
    pub fn shader_source(&self) -> (source: &str)
        ensures
            source@ == self@.program,
    {
        self.shader_source.as_str()
    }

    /// The animation clock as the last call left it.
    pub fn clock(&self) -> (clock: AnimationClock)
        ensures
            clock@ == self@.clock,
    {
        self.clock
    }
}

} // verus!
