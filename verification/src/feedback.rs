//! What a frame does to the textures it draws into, told with abstract
//! contents, and what follows for the feedback between passes.

use crate::commands::{Attachment, BindGroup, LoadOp, RenderPassCommand};
use crate::driver::{
    feedback_pass, overlay_pass, StateView, PASS_BUFFER_A, PASS_BUFFER_B,
};
use crate::timeline::{lemma_selected_none, OverlayTexture};
use crate::uniforms::Uniforms;
use vstd::prelude::*;

verus! {

/// What every attachment holds. Contents are abstract: two contents are
/// the same image exactly when they are the same number.
pub type Contents = Map<Attachment, int>;

/// What a pass leaves in its target. The result may depend on which pass
/// draws, on the uniform block of the frame, on what the pass samples, and
/// on what the target held before if the pass loads it; it depends on
/// nothing else.
pub type Shader = spec_fn(u32, Uniforms, Option<int>, Option<int>) -> int;

/// What a pass samples when it is carried out on `contents`: the present
/// content of a render target, or the fixed content `assets` gives an image.
pub open spec fn sampled(
    contents: Contents,
    assets: spec_fn(BindGroup) -> int,
    command: RenderPassCommand,
) -> Option<int> {
    match command.input() {
        Some(BindGroup::Target(pass)) => Some(contents[Attachment::Target(pass)]),
        Some(image) => Some(assets(image)),
        None => None,
    }
}

/// The contents after one pass: its target holds what the shader makes of
/// the sampled input and, unless the pass clears, of what the target held.
pub open spec fn after_pass(
    contents: Contents,
    shader: Shader,
    assets: spec_fn(BindGroup) -> int,
    uniforms: Uniforms,
    command: RenderPassCommand,
) -> Contents {
    let kept = match command.color_load {
        LoadOp::Load => Some(contents[command.target]),
        LoadOp::Clear(_) => None,
    };
    contents.insert(
        command.target,
        shader(command.pass, uniforms, sampled(contents, assets, command), kept),
    )
}

/// The contents after carrying out `passes` in order, all of them under the
/// same uniform block.
pub open spec fn after_passes(
    contents: Contents,
    shader: Shader,
    assets: spec_fn(BindGroup) -> int,
    uniforms: Uniforms,
    passes: Seq<RenderPassCommand>,
) -> Contents
    decreases passes.len(),
{
    if passes.len() == 0 {
        contents
    } else {
        after_pass(
            after_passes(contents, shader, assets, uniforms, passes.drop_last()),
            shader,
            assets,
            uniforms,
            passes.last(),
        )
    }
}

/// Passes that do not draw into `target` leave it as it is: if none of the
/// passes from `k` on draws into it, it holds after all passes what it held
/// after the first `k`.
pub proof fn lemma_untouched_target_keeps(
    contents: Contents,
    shader: Shader,
    assets: spec_fn(BindGroup) -> int,
    uniforms: Uniforms,
    passes: Seq<RenderPassCommand>,
    k: int,
    target: Attachment,
)
    requires
        0 <= k <= passes.len(),
        forall|i: int| k <= i < passes.len() ==> (#[trigger] passes[i]).target != target,
    ensures
        after_passes(contents, shader, assets, uniforms, passes)[target] == after_passes(
            contents,
            shader,
            assets,
            uniforms,
            passes.take(k),
        )[target],
    decreases passes.len() - k,
{
    if k == passes.len() {
        assert(passes.take(k) =~= passes);
    } else {
        let front = passes.drop_last();
        assert(passes[passes.len() - 1].target != target);
        assert forall|i: int| k <= i < front.len() implies (#[trigger] front[i]).target != target by {
            assert(front[i] == passes[i]);
        }
        lemma_untouched_target_keeps(contents, shader, assets, uniforms, front, k, target);
        assert(front.take(k) =~= passes.take(k));
    }
}

/// Where the passes of a frame draw: the first into the target of the
/// first feedback pass, the second into that of the second, all others
/// onto the surface.
pub proof fn lemma_frame_targets(state: StateView)
    ensures
        state.passes().len() >= 4,
        state.passes()[0] == feedback_pass(PASS_BUFFER_A, PASS_BUFFER_B),
        state.passes()[1] == feedback_pass(PASS_BUFFER_B, PASS_BUFFER_A),
        forall|i: int|
            2 <= i < state.passes().len() ==> (#[trigger] state.passes()[i]).target
                == Attachment::Surface,
{
    let paint = |o: OverlayTexture| overlay_pass(o);
    let overlays = state.overlays().map_values(paint);
    assert forall|i: int| 2 <= i < state.passes().len() implies (#[trigger] state.passes()[i]).target
        == Attachment::Surface by {
        let fixed = if state.dancer_indices.len() > 0 {
            5int
        } else {
            4int
        };
        if i >= fixed {
            assert(state.passes()[i] == overlays[i - fixed]);
            assert(overlays[i - fixed] == overlay_pass(state.overlays()[i - fixed]));
        }
    }
}

/// Feedback arrives a frame late: after a frame, the target of the first
/// feedback pass holds what its shader makes of the uniform block of the
/// frame and of the content the target of the second held when the frame
/// began, and of nothing else.
pub proof fn lemma_feedback_reads_previous_frame(
    state: StateView,
    contents: Contents,
    shader: Shader,
    assets: spec_fn(BindGroup) -> int,
)
    ensures
        after_passes(contents, shader, assets, state.uniforms, state.passes())[Attachment::Target(
            PASS_BUFFER_A,
        )] == shader(
            PASS_BUFFER_A,
            state.uniforms,
            Some(contents[Attachment::Target(PASS_BUFFER_B)]),
            None,
        ),
{
    let passes = state.passes();
    let target = Attachment::Target(PASS_BUFFER_A);
    lemma_frame_targets(state);
    lemma_untouched_target_keeps(contents, shader, assets, state.uniforms, passes, 1, target);
    let first = passes.take(1);
    assert(first.drop_last() =~= Seq::<RenderPassCommand>::empty());
    assert(first.last() == passes[0]);
    assert(after_passes(contents, shader, assets, state.uniforms, first.drop_last()) == contents);
}

/// No pass of a frame samples the target it draws into, and no render
/// target is drawn into by more than one pass of the frame.
pub proof fn lemma_frame_has_no_hazard(state: StateView)
    ensures
        forall|i: int|
            0 <= i < state.passes().len() ==> !(#[trigger] state.passes()[i]).samples_own_target(),
        forall|i: int, j: int|
            0 <= i < j < state.passes().len() && (#[trigger] state.passes()[i]).target
                != Attachment::Surface ==> (#[trigger] state.passes()[j]).target
                != state.passes()[i].target,
{
    lemma_frame_targets(state);
    assert forall|i: int| 0 <= i < state.passes().len() implies !(
    #[trigger] state.passes()[i]).samples_own_target() by {
        if i >= 2 {
            assert(state.passes()[i].target == Attachment::Surface);
        }
    }
    assert forall|i: int, j: int|
        0 <= i < j < state.passes().len() && (#[trigger] state.passes()[i]).target
            != Attachment::Surface implies (#[trigger] state.passes()[j]).target
        != state.passes()[i].target by {
        if i >= 2 {
            assert(state.passes()[i].target == Attachment::Surface);
        }
        if j >= 2 {
            assert(state.passes()[j].target == Attachment::Surface);
        }
    }
}

/// While no rule of the timeline fires, a frame has no overlay pass: it
/// ends with the mesh passes.
pub proof fn lemma_no_rule_no_overlay(state: StateView)
    requires
        forall|i: int|
            0 <= i < state.timeline.rules_of().len() ==> !(#[trigger] state.timeline.rules_of()[i]).live(
                state.timeline.tempo_of(),
                state.uniforms.elapsed_us,
            ),
    ensures
        state.passes().len() == if state.dancer_indices.len() > 0 {
            5int
        } else {
            4int
        },
{
    lemma_selected_none(
        state.timeline.rules_of(),
        state.timeline.tempo_of(),
        state.uniforms.elapsed_us,
    );
}


/// The contents after the first `n` of `frames` have been carried out, one
/// after the other, each under its own uniform block.
pub open spec fn after_frames(
    contents: Contents,
    shader: Shader,
    assets: spec_fn(BindGroup) -> int,
    frames: Seq<StateView>,
    n: int,
) -> Contents
    decreases n,
{
    if n <= 0 {
        contents
    } else {
        after_passes(
            after_frames(contents, shader, assets, frames, n - 1),
            shader,
            assets,
            frames[n - 1].uniforms,
            frames[n - 1].passes(),
        )
    }
}

/// However many frames have gone by, and whatever the composition was at
/// each of them: after frame `n`, the target of the first feedback pass
/// holds what its shader makes of what the target of the second held after
/// frame `n - 1`.
pub proof fn lemma_feedback_over_frames(
    frames: Seq<StateView>,
    contents: Contents,
    shader: Shader,
    assets: spec_fn(BindGroup) -> int,
    n: int,
)
    requires
        1 <= n <= frames.len(),
    ensures
        after_frames(contents, shader, assets, frames, n)[Attachment::Target(PASS_BUFFER_A)]
            == shader(
            PASS_BUFFER_A,
            frames[n - 1].uniforms,
            Some(
                after_frames(contents, shader, assets, frames, n - 1)[Attachment::Target(
                    PASS_BUFFER_B,
                )],
            ),
            None,
        ),
{
    lemma_feedback_reads_previous_frame(
        frames[n - 1],
        after_frames(contents, shader, assets, frames, n - 1),
        shader,
        assets,
    );
}

} // verus!
