//! The playback cursor and the advance state machine.

use vstd::prelude::*;

use crate::clip::{AnimationDirection, ClipInfo, TagInfo};

verus! {

/// A tag name as game code refers to one: a lightweight handle to an entry
/// of the clip's tag table.
#[derive(Debug, Copy, Clone, PartialEq, Eq)]
pub struct AsepriteTag(pub &'static str);

impl AsepriteTag {
    /// Create a new tag
    pub fn new(id: &'static str) -> (r: AsepriteTag)
        ensures
            r.0 == id,
    {
        AsepriteTag(id)
    }

    /// The tag's name.
    pub fn name(&self) -> (r: &'static str)
        ensures
            r == self.0,
    {
        self.0
    }
}

/// The mutable playback cursor for one running instance of a clip.
///
/// `current_frame` is the frame showing now; `forward` is the sweep
/// direction a ping-pong tag is currently on; `time_elapsed` is the time,
/// in milliseconds, accumulated within the current frame. `tag_changed` is
/// set at construction and whenever the tag is reassigned, and makes the
/// next `advance` call reset the cursor to the tag's entry frame.
#[derive(Debug, PartialEq, Eq)]
pub struct AsepriteAnimation {
    pub is_playing: bool,
    pub tag: Option<String>,
    pub current_frame: usize,
    pub forward: bool,
    pub time_elapsed: u64,
    pub tag_changed: bool,
}

/// The range `[start, end)` and direction that playback is bound to:
/// well formed when it spans valid frame indices and, for a ping-pong
/// range, at least two frames.
pub open spec fn span_wf(clip: ClipInfo, start: int, end: int, dir: AnimationDirection) -> bool {
    &&& 0 <= start < end <= clip.frames@.len()
    &&& dir == AnimationDirection::PingPong ==> end - start >= 2
}

/// The frame a range is entered at, and the initial sweep direction:
/// forward ranges and ping-pong ranges start at `start`, reverse ranges at
/// `end - 1`.
pub open spec fn spec_entry(start: int, end: int, dir: AnimationDirection) -> (int, bool) {
    match dir {
        AnimationDirection::Forward => (start, true),
        AnimationDirection::PingPong => (start, true),
        AnimationDirection::Reverse => (end - 1, false),
    }
}

/// One single-frame step within the range `[start, end)`, with wraparound.
///
/// Forward steps wrap to `start`; reverse steps wrap to `end - 1`. A
/// ping-pong sweep turns at the boundaries, and its two turns are not
/// symmetric: when a forward step would leave the range the boundary frame
/// is held and only the sweep direction flips, while a reverse step that
/// stays in range is immediately undone by the turn's upward step (the
/// frame stays put), and one that would leave the range steps one frame up
/// past the boundary.
pub open spec fn spec_step(start: int, end: int, dir: AnimationDirection, frame: int, forward: bool) -> (int, bool) {
    match dir {
        AnimationDirection::Forward => {
            if start <= frame + 1 < end {
                (frame + 1, forward)
            } else {
                (start, forward)
            }
        },
        AnimationDirection::Reverse => {
            if frame >= 1 && start <= frame - 1 < end {
                (frame - 1, forward)
            } else {
                (end - 1, forward)
            }
        },
        AnimationDirection::PingPong => {
            if forward {
                if start <= frame + 1 < end {
                    (frame + 1, true)
                } else {
                    (frame, false)
                }
            } else {
                if frame >= 1 && start <= frame - 1 < end {
                    (frame, true)
                } else {
                    (frame + 1, true)
                }
            }
        },
    }
}

/// Repeated single-frame steps, draining `time`: while the accumulated
/// time covers the current frame's delay, that delay is subtracted and one
/// step is taken. Yields the final frame, sweep direction, and leftover
/// time, which is less than the final frame's delay.
pub open spec fn spec_drain(
    clip: ClipInfo,
    start: int,
    end: int,
    dir: AnimationDirection,
    frame: int,
    forward: bool,
    time: int,
) -> (int, bool, int)
    decreases time
        when clip.wf() && span_wf(clip, start, end, dir) && start <= frame < end && 0 <= time
{
    if time >= clip.delay_of(frame) {
        let stepped = spec_step(start, end, dir, frame, forward);
        spec_drain(clip, start, end, dir, stepped.0, stepped.1, time - clip.delay_of(frame))
    } else {
        (frame, forward, time)
    }
}

/// A step within a well-formed range stays within the range.
pub proof fn lemma_step_in_span(start: int, end: int, dir: AnimationDirection, frame: int, forward: bool)
    requires
        0 <= start < end,
        dir == AnimationDirection::PingPong ==> end - start >= 2,
        start <= frame < end,
    ensures
        start <= spec_step(start, end, dir, frame, forward).0 < end,
{
    match dir {
        AnimationDirection::Forward => {
        },
        AnimationDirection::Reverse => {
        },
        AnimationDirection::PingPong => {
            if !forward && !(frame >= 1 && start <= frame - 1 < end) {
                assert(frame == start);
                assert(spec_step(start, end, dir, frame, forward).0 == frame + 1);
            }
        },
    }
}

/// Draining leaves the cursor inside the range, with a leftover that is
/// below the final frame's delay and no larger than the time drained.
pub proof fn lemma_drain_in_span(
    clip: ClipInfo,
    start: int,
    end: int,
    dir: AnimationDirection,
    frame: int,
    forward: bool,
    time: int,
)
    requires
        clip.wf(),
        span_wf(clip, start, end, dir),
        start <= frame < end,
        0 <= time,
    ensures
        ({
            let r = spec_drain(clip, start, end, dir, frame, forward, time);
            &&& start <= r.0 < end
            &&& 0 <= r.2 <= time
            &&& r.2 < clip.delay_of(r.0)
        }),
    decreases time,
{
    if time >= clip.delay_of(frame) {
        lemma_step_in_span(start, end, dir, frame, forward);
        let stepped = spec_step(start, end, dir, frame, forward);
        lemma_drain_in_span(clip, start, end, dir, stepped.0, stepped.1, time - clip.delay_of(frame));
    }
}

/// Draining is additive in time: draining `time + extra` at once lands
/// where draining `time`, then `extra` on top of the leftover, lands.
pub proof fn lemma_drain_additive(
    clip: ClipInfo,
    start: int,
    end: int,
    dir: AnimationDirection,
    frame: int,
    forward: bool,
    time: int,
    extra: int,
)
    requires
        clip.wf(),
        span_wf(clip, start, end, dir),
        start <= frame < end,
        0 <= time,
        0 <= extra,
    ensures
        ({
            let r = spec_drain(clip, start, end, dir, frame, forward, time);
            spec_drain(clip, start, end, dir, frame, forward, time + extra) == spec_drain(
                clip,
                start,
                end,
                dir,
                r.0,
                r.1,
                r.2 + extra,
            )
        }),
    decreases time,
{
    if time >= clip.delay_of(frame) {
        lemma_step_in_span(start, end, dir, frame, forward);
        let stepped = spec_step(start, end, dir, frame, forward);
        lemma_drain_additive(
            clip,
            start,
            end,
            dir,
            stepped.0,
            stepped.1,
            time - clip.delay_of(frame),
            extra,
        );
    }
}

impl AsepriteAnimation {
    /// A fresh cursor: playing, at frame `0`, with a pending reset into
    /// the given tag (or into the whole clip, when there is none).
    pub open spec fn initial(tag: Option<String>) -> AsepriteAnimation {
        AsepriteAnimation {
            is_playing: true,
            tag,
            current_frame: 0,
            forward: false,
            time_elapsed: 0,
            tag_changed: true,
        }
    }

    /// The range and direction playback is currently bound to: the whole
    /// clip, forward, when no tag is selected; the tag's range when the
    /// selected tag is in the clip's tag table; nothing when it is not.
    pub open spec fn spec_active_span(self, clip: ClipInfo) -> Option<(int, int, AnimationDirection)> {
        match self.tag {
            None => Some((0 as int, clip.frames@.len() as int, AnimationDirection::Forward)),
            Some(name) => match clip.spec_find_tag(name@) {
                Some(t) => Some((t.start as int, t.end as int, t.direction)),
                None => None,
            },
        }
    }

    /// The cursor is consistent with the clip: the current frame is a
    /// valid index and, unless a reset is pending, lies within the active
    /// range. Constructors establish this and `advance` preserves it.
    pub open spec fn inv(self, clip: ClipInfo) -> bool {
        &&& self.current_frame < clip.frames@.len()
        &&& !self.tag_changed ==> match self.spec_active_span(clip) {
            Some(span) => span.0 <= self.current_frame < span.1,
            None => true,
        }
    }

    /// The cursor after a reset: the pending-reset flag is cleared and the
    /// cursor jumps to the active range's entry frame. An unknown tag
    /// leaves the frame untouched. Accumulated time is kept either way.
    pub open spec fn spec_reset(self, clip: ClipInfo) -> AsepriteAnimation {
        let cleared = AsepriteAnimation { tag_changed: false, ..self };
        match self.spec_active_span(clip) {
            Some(span) => {
                let entry = spec_entry(span.0, span.1, span.2);
                AsepriteAnimation { current_frame: entry.0 as usize, forward: entry.1, ..cleared }
            },
            None => cleared,
        }
    }

    /// The cursor after one single-frame step; an unknown tag steps
    /// nowhere.
    pub open spec fn spec_next_frame(self, clip: ClipInfo) -> AsepriteAnimation {
        match self.spec_active_span(clip) {
            Some(span) => {
                let stepped = spec_step(span.0, span.1, span.2, self.current_frame as int, self.forward);
                AsepriteAnimation { current_frame: stepped.0 as usize, forward: stepped.1, ..self }
            },
            None => self,
        }
    }

    /// The cursor after one `advance` call, paired with whether the call
    /// reports a frame change. A pending reset is performed, reported as a
    /// change, and consumes no time; a paused cursor and an unknown tag
    /// are left unchanged; otherwise the time delta is accumulated and
    /// drained across frame steps, and a change is reported exactly when
    /// at least one step was taken.
    pub open spec fn spec_advance(self, clip: ClipInfo, dt: u64) -> (AsepriteAnimation, bool) {
        if self.tag_changed {
            (self.spec_reset(clip), true)
        } else if !self.is_playing {
            (self, false)
        } else {
            match self.spec_active_span(clip) {
                None => (self, false),
                Some(span) => {
                    let total = self.time_elapsed + dt;
                    let drained = spec_drain(
                        clip,
                        span.0,
                        span.1,
                        span.2,
                        self.current_frame as int,
                        self.forward,
                        total,
                    );
                    (
                        AsepriteAnimation {
                            current_frame: drained.0 as usize,
                            forward: drained.1,
                            time_elapsed: drained.2 as u64,
                            ..self
                        },
                        total >= clip.delay_of(self.current_frame as int),
                    )
                },
            }
        }
    }

    /// Whether the current call finds playback at the end of the selected
    /// tag: the cursor sits on the tag's final frame and the accumulated
    /// plus incoming time covers that frame's delay. Without a selected
    /// tag, or with an unknown one, completion is never reported.
    pub open spec fn spec_last_frame_finished(self, clip: ClipInfo, dt: u64) -> bool {
        match self.tag {
            None => false,
            Some(name) => match clip.spec_find_tag(name@) {
                None => false,
                Some(t) => self.current_frame == t.end - 1 && self.time_elapsed + dt >= clip.delay_of(
                    self.current_frame as int,
                ),
            },
        }
    }

    /// Whether playback stands at the end of the selected tag: true
    /// exactly when the cursor is on the tag's final frame and the
    /// accumulated plus incoming time covers that frame's full delay.
    /// Reports a benign `false` when no tag is selected, or when the
    /// selected tag is not in the clip's tag table. Mutates nothing.
    pub fn last_frame_finished(&self, clip: &ClipInfo, dt: u64) -> (r: bool)
        requires
            clip.wf(),
            self.current_frame < clip.frames@.len(),
            self.time_elapsed + dt <= u64::MAX,
        ensures
            r == self.spec_last_frame_finished(*clip, dt),
    {
        match &self.tag {
            None => false,
            Some(name) => match clip.find_tag(name) {
                None => false,
                Some(i) => {
                    let t = &clip.tags[i];
                    proof {
                        assert(clip.tags@[i as int].wf(clip.frames@.len() as int));
                    }
                    let is_last_frame = self.current_frame == t.end - 1;
                    let frame_finished = self.time_elapsed + dt
                        >= clip.frames[self.current_frame].delay_ms;
                    is_last_frame && frame_finished
                },
            },
        }
    }

    /// Get the current frame
    pub fn current_frame(&self) -> (r: usize)
        ensures
            r == self.current_frame,
    {
        self.current_frame
    }

    /// The time accumulated within the current frame, in milliseconds.
    pub fn time_elapsed(&self) -> (r: u64)
        ensures
            r == self.time_elapsed,
    {
        self.time_elapsed
    }

    /// The delay of the frame showing now, in milliseconds.
    pub fn current_frame_duration(&self, clip: &ClipInfo) -> (r: u64)
        requires
            self.current_frame < clip.frames@.len(),
        ensures
            r == clip.delay_of(self.current_frame as int),
    {
        clip.frames[self.current_frame].delay_ms
    }

    /// Start or resume playing an animation
    pub fn play(&mut self)
        ensures
            *final(self) == (AsepriteAnimation { is_playing: true, ..*old(self) }),
    {
        self.is_playing = true;
    }

    /// Pause the current animation
    pub fn pause(&mut self)
        ensures
            *final(self) == (AsepriteAnimation { is_playing: false, ..*old(self) }),
    {
        self.is_playing = false;
    }

    /// Returns `true` if the animation is playing
    pub fn is_playing(&self) -> (r: bool)
        ensures
            r == self.is_playing,
    {
        self.is_playing
    }

    /// Returns `true` if the animation is paused
    pub fn is_paused(&self) -> (r: bool)
        ensures
            r == !self.is_playing,
    {
        !self.is_playing
    }

    /// Toggle state between playing and pausing
    pub fn toggle(&mut self)
        ensures
            *final(self) == (AsepriteAnimation { is_playing: !old(self).is_playing, ..*old(self) }),
    {
        self.is_playing = !self.is_playing;
    }

    /// Moves the cursor to the active range's entry frame and clears the
    /// pending-reset flag. An unknown tag leaves the cursor where it is;
    /// accumulated time is kept either way.
    fn reset(&mut self, clip: &ClipInfo)
        requires
            clip.wf(),
            old(self).inv(*clip),
        ensures
            *final(self) == old(self).spec_reset(*clip),
            final(self).inv(*clip),
    {
        self.tag_changed = false;
        match &self.tag {
            Some(name) => {
                match clip.find_tag(name) {
                    Some(i) => {
                        let t = &clip.tags[i];
                        proof {
                            assert(clip.tags@[i as int].wf(clip.frames@.len() as int));
                        }
                        match t.direction {
                            AnimationDirection::Forward | AnimationDirection::PingPong => {
                                self.current_frame = t.start;
                                self.forward = true;
                            },
                            AnimationDirection::Reverse => {
                                self.current_frame = t.end - 1;
                                self.forward = false;
                            },
                        }
                    },
                    None => {
                    },
                }
            },
            None => {
                self.current_frame = 0;
                self.forward = true;
            },
        }
    }

    /// One single-frame step of the active range, with wraparound; see
    /// `spec_step` for the boundary behaviour. An unknown tag steps
    /// nowhere.
    fn next_frame(&mut self, clip: &ClipInfo)
        requires
            clip.wf(),
            old(self).inv(*clip),
            !old(self).tag_changed,
        ensures
            *final(self) == old(self).spec_next_frame(*clip),
            final(self).inv(*clip),
    {
        let frame_count = clip.frames.len();
        match &self.tag {
            Some(name) => {
                match clip.find_tag(name) {
                    Some(i) => {
                        let t = &clip.tags[i];
                        proof {
                            assert(clip.tags@[i as int].wf(clip.frames@.len() as int));
                        }
                        match t.direction {
                            AnimationDirection::Forward => {
                                let next = self.current_frame + 1;
                                if t.start <= next && next < t.end {
                                    self.current_frame = next;
                                } else {
                                    self.current_frame = t.start;
                                }
                            },
                            AnimationDirection::Reverse => {
                                if self.current_frame >= 1 && t.start <= self.current_frame - 1
                                    && self.current_frame - 1 < t.end {
                                    self.current_frame = self.current_frame - 1;
                                } else {
                                    self.current_frame = t.end - 1;
                                }
                            },
                            AnimationDirection::PingPong => {
                                if self.forward {
                                    let next = self.current_frame + 1;
                                    if t.start <= next && next < t.end {
                                        self.current_frame = next;
                                    } else {
                                        // the boundary frame is held; only the
                                        // sweep direction turns
                                        self.forward = false;
                                    }
                                } else {
                                    if self.current_frame >= 1 && t.start <= self.current_frame - 1
                                        && self.current_frame - 1 < t.end {
                                        // the step down is undone by the turn's
                                        // step back up: the frame stays put
                                    } else {
                                        self.current_frame = self.current_frame + 1;
                                    }
                                    self.forward = true;
                                }
                            },
                        }
                    },
                    None => {
                    },
                }
            },
            None => {
                proof {
                    if self.current_frame + 1 < frame_count {
                        vstd::arithmetic::div_mod::lemma_small_mod(
                            (self.current_frame + 1) as nat,
                            frame_count as nat,
                        );
                    } else {
                        vstd::arithmetic::div_mod::lemma_mod_self_0(frame_count as int);
                    }
                }
                self.current_frame = (self.current_frame + 1) % frame_count;
            },
        }
    }

    /// The per-tick entry point: advances playback by `dt` milliseconds
    /// and returns whether the visible frame changed.
    ///
    /// A pending tag change resets the cursor first and reports a change,
    /// consuming no time. A paused cursor, and one whose selected tag is
    /// not in the clip's tag table, are left entirely unchanged. Otherwise
    /// `dt` is accumulated and drained across as many frame steps as it
    /// covers, so arbitrarily large deltas catch up in one call; on return
    /// the accumulated time is below the current frame's delay.
    pub fn advance(&mut self, clip: &ClipInfo, dt: u64) -> (changed: bool)
        requires
            clip.wf(),
            old(self).inv(*clip),
            old(self).time_elapsed + dt <= u64::MAX,
        ensures
            (*final(self), changed) == old(self).spec_advance(*clip, dt),
            final(self).inv(*clip),
            final(self).current_frame < clip.frames@.len(),
            !old(self).tag_changed && old(self).is_playing && old(self).spec_active_span(*clip) is Some
                ==> final(self).time_elapsed < clip.delay_of(final(self).current_frame as int),
    {
        if self.tag_changed {
            self.reset(clip);
            return true;
        }
        if !self.is_playing {
            return false;
        }
        match &self.tag {
            None => {
            },
            Some(name) => {
                let found = clip.find_tag(name);
                if found.is_none() {
                    return false;
                }
                proof {
                    assert(clip.tags@[found->0 as int].wf(clip.frames@.len() as int));
                }
            },
        }
        let ghost span = self.spec_active_span(*clip)->0;
        proof {
            assert(span_wf(*clip, span.0, span.1, span.2));
        }
        let ghost total: int = self.time_elapsed + dt;
        self.time_elapsed = self.time_elapsed + dt;
        let mut changed = false;
        while self.time_elapsed >= clip.frames[self.current_frame].delay_ms
            invariant
                clip.wf(),
                self.inv(*clip),
                !self.tag_changed,
                self.tag == old(self).tag,
                self.is_playing == old(self).is_playing,
                old(self).spec_active_span(*clip) == Some(span),
                span_wf(*clip, span.0, span.1, span.2),
                span.0 <= self.current_frame < span.1,
                self.time_elapsed <= total,
                total <= u64::MAX,
                spec_drain(
                    *clip,
                    span.0,
                    span.1,
                    span.2,
                    self.current_frame as int,
                    self.forward,
                    self.time_elapsed as int,
                ) == spec_drain(
                    *clip,
                    span.0,
                    span.1,
                    span.2,
                    old(self).current_frame as int,
                    old(self).forward,
                    total,
                ),
                changed ==> total >= clip.delay_of(old(self).current_frame as int),
                !changed ==> self.current_frame == old(self).current_frame
                    && self.forward == old(self).forward && self.time_elapsed == total,
            decreases self.time_elapsed,
        {
            let d = clip.frames[self.current_frame].delay_ms;
            self.time_elapsed = self.time_elapsed - d;
            proof {
                vstd::std_specs::vec::axiom_spec_len(&clip.frames);
                lemma_step_in_span(span.0, span.1, span.2, self.current_frame as int, self.forward);
                let stepped = spec_step(
                    span.0,
                    span.1,
                    span.2,
                    self.current_frame as int,
                    self.forward,
                );
                assert(spec_drain(
                    *clip,
                    span.0,
                    span.1,
                    span.2,
                    self.current_frame as int,
                    self.forward,
                    self.time_elapsed + d,
                ) == spec_drain(
                    *clip,
                    span.0,
                    span.1,
                    span.2,
                    stepped.0,
                    stepped.1,
                    self.time_elapsed as int,
                ));
            }
            self.next_frame(clip);
            changed = true;
        }
        changed
    }

    /// Checks, at run time, that the cursor is consistent with the given
    /// clip (see `inv`). Meant for unverified callers that pair cursors
    /// and clips themselves and must establish `advance`'s precondition
    /// before calling it.
    pub fn in_sync_with(&self, clip: &ClipInfo) -> (r: bool)
        ensures
            r == self.inv(*clip),
    {
        if self.current_frame >= clip.frames.len() {
            return false;
        }
        if self.tag_changed {
            return true;
        }
        match &self.tag {
            None => true,
            Some(name) => match clip.find_tag(name) {
                None => true,
                Some(i) => {
                    let t = &clip.tags[i];
                    t.start <= self.current_frame && self.current_frame < t.end
                },
            },
        }
    }

    /// Select a tag (or none: the whole clip, forward, looping). This
    /// schedules a reset: the next `advance` call jumps to the entry frame
    /// of the new selection.
    pub fn set_tag(&mut self, tag: Option<String>)
        ensures
            *final(self) == (AsepriteAnimation { tag, tag_changed: true, ..*old(self) }),
    {
        self.tag = tag;
        self.tag_changed = true;
    }
}

impl Default for AsepriteAnimation {
    /// A fresh cursor that plays the whole clip.
    fn default() -> (r: Self)
        ensures
            r == AsepriteAnimation::initial(None),
    {
        AsepriteAnimation {
            is_playing: true,
            tag: None,
            current_frame: 0,
            forward: false,
            time_elapsed: 0,
            tag_changed: true,
        }
    }
}

impl From<String> for AsepriteAnimation {
    /// A fresh cursor that plays the named tag.
    fn from(tag: String) -> (r: AsepriteAnimation) {
        AsepriteAnimation {
            is_playing: true,
            tag: Some(tag),
            current_frame: 0,
            forward: false,
            time_elapsed: 0,
            tag_changed: true,
        }
    }
}

impl vstd::std_specs::convert::FromSpecImpl<String> for AsepriteAnimation {
    open spec fn obeys_from_spec() -> bool {
        true
    }

    open spec fn from_spec(tag: String) -> AsepriteAnimation {
        AsepriteAnimation::initial(Some(tag))
    }
}

impl From<&str> for AsepriteAnimation {
    /// A fresh cursor that plays the named tag: as `Default`, except that
    /// the tag is selected, so the next `advance` call resets into it.
    /// The tag string is copied into a fresh `String`; only its character
    /// view can be pinned down, which is why `obeys_from_spec` below is
    /// off and the contract stands here on the impl instead.
    fn from(tag: &str) -> (r: AsepriteAnimation)
        ensures
            r.is_playing,
            r.tag is Some,
            r.tag->0@ == tag@,
            r.current_frame == 0,
            !r.forward,
            r.time_elapsed == 0,
            r.tag_changed,
    {
        AsepriteAnimation {
            is_playing: true,
            tag: Some(tag.to_owned()),
            current_frame: 0,
            forward: false,
            time_elapsed: 0,
            tag_changed: true,
        }
    }
}

impl vstd::std_specs::convert::FromSpecImpl<&str> for AsepriteAnimation {
    open spec fn obeys_from_spec() -> bool {
        false
    }

    open spec fn from_spec(tag: &str) -> AsepriteAnimation {
        AsepriteAnimation::initial(None)
    }
}

} // verus!
