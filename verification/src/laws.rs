//! Proofs of the playback guarantees that relate several operations.
//!
//! The single-call guarantees (the frame index stays in bounds, the exact
//! reset/step/drain behaviour) are the `ensures` of `advance` itself; the
//! statements here spell out the guarantees a caller gets across calls.

use vstd::prelude::*;

use crate::anim::{
    lemma_drain_additive, lemma_drain_in_span, spec_drain, spec_entry, AsepriteAnimation,
};
use crate::clip::{AnimationDirection, ClipInfo};

verus! {

/// A pending tag change always forces the next `advance` call to reset:
/// the call reports a change, consumes no time, clears the pending flag,
/// and moves the cursor to the entry frame of the active range (forward
/// and ping-pong ranges enter at `start`, reverse ranges at `end - 1`).
/// When the selected tag is not in the clip's tag table, the cursor stays
/// where it is.
pub proof fn lemma_tag_switch_resets(anim: AsepriteAnimation, clip: ClipInfo, dt: u64)
    requires
        clip.wf(),
        anim.inv(clip),
        anim.tag_changed,
    ensures
        ({
            let (after, changed) = anim.spec_advance(clip, dt);
            &&& changed
            &&& after.time_elapsed == anim.time_elapsed
            &&& after.tag == anim.tag
            &&& after.is_playing == anim.is_playing
            &&& !after.tag_changed
            &&& match anim.spec_active_span(clip) {
                Some(span) => (after.current_frame as int, after.forward) == spec_entry(
                    span.0,
                    span.1,
                    span.2,
                ),
                None => after.current_frame == anim.current_frame,
            }
        }),
{
    vstd::std_specs::vec::axiom_spec_len(&clip.frames);
    match anim.tag {
        None => {
        },
        Some(name) => {
            if clip.spec_find_tag(name@) is Some {
                clip.lemma_found_tag_wf(name@);
            }
        },
    }
}

/// An unknown tag name never panics and never moves playback: whatever
/// `dt` is handed in, `advance` leaves the frame, the accumulated time,
/// the sweep direction and the play state exactly as they were, and
/// reports a change only for the reset call that a pending tag change
/// forces.
pub proof fn lemma_unknown_tag_freezes(anim: AsepriteAnimation, clip: ClipInfo, dt: u64)
    requires
        anim.tag is Some,
        clip.spec_find_tag(anim.tag->0@) is None,
    ensures
        ({
            let (after, changed) = anim.spec_advance(clip, dt);
            &&& after.current_frame == anim.current_frame
            &&& after.time_elapsed == anim.time_elapsed
            &&& after.forward == anim.forward
            &&& after.tag == anim.tag
            &&& after.is_playing == anim.is_playing
            &&& changed == anim.tag_changed
        }),
{
}

/// Advancing by a zero time delta is a no-op: with no reset pending and
/// the accumulated time still below the current frame's delay — which is
/// how every drain leaves the cursor — `advance(dt = 0)` changes nothing
/// and reports no change.
pub proof fn lemma_zero_dt_is_noop(anim: AsepriteAnimation, clip: ClipInfo)
    requires
        clip.wf(),
        anim.inv(clip),
        !anim.tag_changed,
        anim.time_elapsed < clip.delay_of(anim.current_frame as int),
    ensures
        anim.spec_advance(clip, 0) == (anim, false),
{
    vstd::std_specs::vec::axiom_spec_len(&clip.frames);
    match anim.tag {
        None => {
        },
        Some(name) => {
            if clip.spec_find_tag(name@) is Some {
                clip.lemma_found_tag_wf(name@);
            }
        },
    }
}

/// Entering a known tag: a reset clears the pending flag, moves the
/// cursor to the tag's entry frame for its direction — forward and
/// ping-pong tags enter at `start` sweeping forward, reverse tags at
/// `end - 1` sweeping backward — and leaves the accumulated time, the
/// selection and the play state untouched.
pub proof fn lemma_reset_enters_tag(anim: AsepriteAnimation, clip: ClipInfo)
    requires
        clip.wf(),
        anim.tag is Some,
        clip.spec_find_tag(anim.tag->0@) is Some,
    ensures
        ({
            let t = clip.spec_find_tag(anim.tag->0@)->0;
            let after = anim.spec_reset(clip);
            &&& !after.tag_changed
            &&& after.time_elapsed == anim.time_elapsed
            &&& after.tag == anim.tag
            &&& after.is_playing == anim.is_playing
            &&& t.direction != AnimationDirection::Reverse ==> after.current_frame == t.start
                && after.forward
            &&& t.direction == AnimationDirection::Reverse ==> after.current_frame == t.end - 1
                && !after.forward
        }),
{
    vstd::std_specs::vec::axiom_spec_len(&clip.frames);
    clip.lemma_found_tag_wf(anim.tag->0@);
}

/// A reverse tag cycles downward: from inside the range a step moves the
/// cursor one frame down, and from the range's low end it wraps back to
/// `end - 1`. Nothing but the frame moves.
pub proof fn lemma_reverse_step_cycles(anim: AsepriteAnimation, clip: ClipInfo)
    requires
        clip.wf(),
        anim.tag is Some,
        clip.spec_find_tag(anim.tag->0@) is Some,
        clip.spec_find_tag(anim.tag->0@)->0.direction == AnimationDirection::Reverse,
        ({
            let t = clip.spec_find_tag(anim.tag->0@)->0;
            t.start <= anim.current_frame < t.end
        }),
    ensures
        ({
            let t = clip.spec_find_tag(anim.tag->0@)->0;
            let after = anim.spec_next_frame(clip);
            &&& after.current_frame == (if anim.current_frame > t.start {
                anim.current_frame - 1
            } else {
                t.end - 1
            })
            &&& after == (AsepriteAnimation { current_frame: after.current_frame, ..anim })
        }),
{
    vstd::std_specs::vec::axiom_spec_len(&clip.frames);
    clip.lemma_found_tag_wf(anim.tag->0@);
}

/// A ping-pong sweep climbing with room ahead steps one frame up and
/// keeps sweeping forward.
pub proof fn lemma_pingpong_forward_step(anim: AsepriteAnimation, clip: ClipInfo)
    requires
        clip.wf(),
        anim.tag is Some,
        clip.spec_find_tag(anim.tag->0@) is Some,
        clip.spec_find_tag(anim.tag->0@)->0.direction == AnimationDirection::PingPong,
        anim.forward,
        ({
            let t = clip.spec_find_tag(anim.tag->0@)->0;
            t.start <= anim.current_frame && anim.current_frame + 1 < t.end
        }),
    ensures
        ({
            let after = anim.spec_next_frame(clip);
            &&& after.current_frame == anim.current_frame + 1
            &&& after.forward
            &&& after == (AsepriteAnimation { current_frame: after.current_frame, ..anim })
        }),
{
    vstd::std_specs::vec::axiom_spec_len(&clip.frames);
    clip.lemma_found_tag_wf(anim.tag->0@);
}

/// The turn at a ping-pong range's top: the boundary frame `end - 1` is
/// re-displayed — its single revisit — and only the sweep direction
/// flips.
pub proof fn lemma_pingpong_top_turn(anim: AsepriteAnimation, clip: ClipInfo)
    requires
        clip.wf(),
        anim.tag is Some,
        clip.spec_find_tag(anim.tag->0@) is Some,
        clip.spec_find_tag(anim.tag->0@)->0.direction == AnimationDirection::PingPong,
        anim.forward,
        ({
            let t = clip.spec_find_tag(anim.tag->0@)->0;
            t.start <= anim.current_frame && anim.current_frame == t.end - 1
        }),
    ensures
        ({
            let t = clip.spec_find_tag(anim.tag->0@)->0;
            let after = anim.spec_next_frame(clip);
            &&& after.current_frame == t.end - 1
            &&& !after.forward
            &&& after == (AsepriteAnimation {
                current_frame: after.current_frame,
                forward: false,
                ..anim
            })
        }),
{
    vstd::std_specs::vec::axiom_spec_len(&clip.frames);
    clip.lemma_found_tag_wf(anim.tag->0@);
}

/// The turn at a ping-pong range's low end is not symmetric to the top
/// turn: a backward sweep standing on `start` steps one frame up past the
/// boundary without re-displaying it, and sweeps forward again. There is
/// no underflow even when the range starts at frame `0`.
pub proof fn lemma_pingpong_low_turn(anim: AsepriteAnimation, clip: ClipInfo)
    requires
        clip.wf(),
        anim.tag is Some,
        clip.spec_find_tag(anim.tag->0@) is Some,
        clip.spec_find_tag(anim.tag->0@)->0.direction == AnimationDirection::PingPong,
        !anim.forward,
        ({
            let t = clip.spec_find_tag(anim.tag->0@)->0;
            anim.current_frame == t.start && t.start + 1 < t.end
        }),
    ensures
        ({
            let t = clip.spec_find_tag(anim.tag->0@)->0;
            let after = anim.spec_next_frame(clip);
            &&& after.current_frame == t.start + 1
            &&& after.forward
            &&& after == (AsepriteAnimation {
                current_frame: after.current_frame,
                forward: true,
                ..anim
            })
        }),
{
    vstd::std_specs::vec::axiom_spec_len(&clip.frames);
    clip.lemma_found_tag_wf(anim.tag->0@);
}

/// Without a tag the whole clip loops by plain modular increment,
/// whatever the tag table holds: a step never reads it. Nothing but the
/// frame moves.
pub proof fn lemma_no_tag_steps_modulo(anim: AsepriteAnimation, clip: ClipInfo)
    requires
        clip.wf(),
        anim.tag is None,
        anim.current_frame < clip.frames@.len(),
    ensures
        ({
            let after = anim.spec_next_frame(clip);
            &&& after.current_frame == (anim.current_frame + 1) % (clip.frames@.len() as int)
            &&& after == (AsepriteAnimation { current_frame: after.current_frame, ..anim })
        }),
{
    vstd::std_specs::vec::axiom_spec_len(&clip.frames);
    let len = clip.frames@.len() as int;
    if anim.current_frame + 1 < len {
        vstd::arithmetic::div_mod::lemma_small_mod((anim.current_frame + 1) as nat, len as nat);
    } else {
        vstd::arithmetic::div_mod::lemma_mod_self_0(len);
    }
}

/// Catching up in one call is the same as ticking twice: with no reset
/// pending, advancing by `dt1 + dt2` yields the very cursor that advancing
/// by `dt1` and then by `dt2` yields, and reports a change exactly when
/// one of the two smaller calls does. Large deltas after a stall are
/// therefore drained just as a sequence of ordinary ticks would be.
pub proof fn lemma_advance_additive(anim: AsepriteAnimation, clip: ClipInfo, dt1: u64, dt2: u64)
    requires
        clip.wf(),
        anim.inv(clip),
        !anim.tag_changed,
        anim.time_elapsed + dt1 + dt2 <= u64::MAX,
    ensures
        ({
            let (mid, changed1) = anim.spec_advance(clip, dt1);
            let (after_two, changed2) = mid.spec_advance(clip, dt2);
            let (after_one, changed) = anim.spec_advance(clip, (dt1 + dt2) as u64);
            &&& after_one == after_two
            &&& changed == (changed1 || changed2)
        }),
{
    vstd::std_specs::vec::axiom_spec_len(&clip.frames);
    if anim.is_playing {
        match anim.tag {
            None => {
            },
            Some(name) => {
                if clip.spec_find_tag(name@) is Some {
                    clip.lemma_found_tag_wf(name@);
                }
            },
        }
        if anim.spec_active_span(clip) is Some {
            let span = anim.spec_active_span(clip)->0;
            let frame = anim.current_frame as int;
            let total1 = anim.time_elapsed + dt1;
            lemma_drain_in_span(clip, span.0, span.1, span.2, frame, anim.forward, total1);
            lemma_drain_additive(clip, span.0, span.1, span.2, frame, anim.forward, total1, dt2 as int);
            let r1 = spec_drain(clip, span.0, span.1, span.2, frame, anim.forward, total1);
            let mid = anim.spec_advance(clip, dt1).0;
            assert(mid.spec_active_span(clip) == Some(span));
            assert(mid.current_frame as int == r1.0 && mid.time_elapsed as int == r1.2);
        }
    }
}

} // verus!
