//! The manager: a fixed, ordered collection of renderers that are advanced
//! together.

use vstd::prelude::*;
use crate::clock::ClockState;
use crate::renderer::Frame;
use crate::renderer::RendererState;
use crate::renderer::ShaderRenderer;

verus! {

/// One tick with the flag `animation_enabled` takes a collection of renderers
/// from `before` to `after` and produces `frames`: the collection keeps its
/// length, there is one frame for each renderer, and the `i`-th renderer made
/// the `i`-th frame by one call of its own.
pub open spec fn is_tick(
    before: Seq<RendererState>,
    animation_enabled: bool,
    after: Seq<RendererState>,
    frames: Seq<Frame>,
) -> bool {
    &&& after.len() == before.len()
    &&& frames.len() == before.len()
    &&& forall|i: int|
        0 <= i < before.len() ==> before[i].renders_at_some_time(
            animation_enabled,
            after[i],
            #[trigger] frames[i],
        )
}

/// The collection is stable. `states[0]` is a collection of renderers, and
/// the `k`-th of any number of ticks takes it from `states[k]` to
/// `states[k + 1]` and returns `outputs[k]`. Then every tick returns as many
/// frames as the collection had renderers at the start, and after every tick
/// the renderer at each index still draws the program that it drew at the
/// start.
pub proof fn lemma_collection_is_stable(
    states: Seq<Seq<RendererState>>,
    flags: Seq<bool>,
    outputs: Seq<Seq<Frame>>,
    k: int,
)
    requires
        states.len() == flags.len() + 1,
        outputs.len() == flags.len(),
        forall|n: int|
            0 <= n < flags.len() ==> is_tick(states[n], flags[n], states[n + 1], #[trigger] outputs[n]),
        0 <= k < flags.len(),
    ensures
        outputs[k].len() == states[0].len(),
        states[k + 1].len() == states[0].len(),
        forall|i: int|
            0 <= i < states[0].len() ==> (#[trigger] states[k + 1][i]).program == states[0][i].program,
    decreases k,
{
    let output = outputs[k];
    if k > 0 {
        lemma_collection_is_stable(states, flags, outputs, k - 1);
    }
    assert forall|i: int| 0 <= i < states[0].len() implies (#[trigger] states[k + 1][i]).program
        == states[0][i].program by {
        let frame = output[i];
        assert(states[k][i].renders_at_some_time(flags[k], states[k + 1][i], frame));
    }
}

/// Owns one renderer per effect program, in the order in which the programs
/// were given, and advances all of them on every tick.
pub struct AnimatedShaderManager {
    renderers: Vec<ShaderRenderer>,
}

impl View for AnimatedShaderManager {
    type V = Seq<RendererState>;

    closed spec fn view(&self) -> Seq<RendererState> {
        Seq::new(self.renderers@.len(), |i: int| self.renderers@[i]@)
    }
}

impl AnimatedShaderManager {
    /// The source texts of the effect programs, in collection order.
    pub open spec fn programs(&self) -> Seq<Seq<char>> {
        Seq::new(self@.len(), |i: int| self@[i].program)
    }

    /// A manager with one new renderer for each of `effect_programs`, in the
    /// same order.
    pub fn new(effect_programs: &[&str]) -> (manager: AnimatedShaderManager)
        ensures
            manager@.len() == effect_programs@.len(),
            forall|i: int|
                0 <= i < effect_programs@.len() ==> {
                    &&& (#[trigger] manager@[i]).program == effect_programs@[i]@
                    &&& manager@[i].clock == ClockState::fresh()
                },
    {
        let mut renderers: Vec<ShaderRenderer> = Vec::new();
        let mut i: usize = 0;
        while i < effect_programs.len()
            invariant
                i <= effect_programs@.len(),
                renderers@.len() == i,
                forall|k: int|
                    0 <= k < i ==> {
                        &&& (#[trigger] renderers@[k])@.program == effect_programs@[k]@
                        &&& renderers@[k]@.clock == ClockState::fresh()
                    },
            decreases effect_programs@.len() - i,
        {
            renderers.push(ShaderRenderer::new(effect_programs[i]));
            i += 1;
        }
        AnimatedShaderManager { renderers }
    }

    /// The number of renderers, which is the number of frames of every tick.
    pub fn len(&self) -> (n: usize)
        ensures
            n == self@.len(),
    {
        self.renderers.len()
    }

    /// The renderers, in collection order.
    pub fn renderers(&self) -> (renderers: &[ShaderRenderer])
        ensures
            renderers@.len() == self@.len(),
            forall|i: int| 0 <= i < self@.len() ==> (#[trigger] renderers@[i])@ == self@[i],
    {
        self.renderers.as_slice()
    }

    /// One tick: every renderer produces its next frame, in collection
    /// order, with the same animation flag.
    ///
    /// The result holds one frame for each renderer, the `i`-th frame from
    /// the `i`-th renderer. The collection keeps its length and its order,
    /// and every renderer keeps its program; only the clocks advance.
    pub fn update_and_render(&mut self, animation_enabled: bool) -> (frames: Vec<Frame>)
        ensures
            is_tick(old(self)@, animation_enabled, final(self)@, frames@),
            final(self).programs() == old(self).programs(),
            forall|i: int|
                0 <= i < old(self)@.len() ==> (#[trigger] final(self)@[i]).program == old(self)@[i].program,
    {
        let mut frames: Vec<Frame> = Vec::new();
        let mut i: usize = 0;
        while i < self.renderers.len()
            invariant
                i <= self.renderers@.len(),
                self.renderers@.len() == old(self).renderers@.len(),
                frames@.len() == i,
                forall|k: int|
                    0 <= k < i ==> old(self).renderers@[k]@.renders_at_some_time(
                        animation_enabled,
                        self.renderers@[k]@,
                        #[trigger] frames@[k],
                    ),
                forall|k: int|
                    i <= k < self.renderers@.len() ==> self.renderers@[k] == old(self).renderers@[k],
            decreases self.renderers@.len() - i,
        {
            let frame = self.renderers[i].render(animation_enabled);
            frames.push(frame);
            i += 1;
        }
        proof {
            assert forall|k: int| 0 <= k < self@.len() implies self@[k].program == old(self)@[k].program by {
                assert(old(self)@[k].renders_at_some_time(animation_enabled, self@[k], frames@[k]));
            }
            assert(self.programs() =~= old(self).programs());
        }
        frames
    }
}

/// Creates a manager for `effect_programs` and returns its first frames,
/// drawn with animation enabled: one frame for each program, in order. The
/// manager itself is not kept.
///
/// The clocks are new and animation is enabled, so each frame carries the
/// wall-clock time that has passed since its renderer was created.
pub fn setup_shader_textures(effect_programs: &[&str]) -> (frames: Vec<Frame>)
    ensures
        frames@.len() == effect_programs@.len(),
{
    let mut manager = AnimatedShaderManager::new(effect_programs);
    manager.update_and_render(true)
}

} // verus!
