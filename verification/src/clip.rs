//! The static data model of a loaded clip: per-frame delays and named tags.

use vstd::prelude::*;

verus! {

/// Playback direction of a tag.
#[derive(Debug, Copy, Clone, PartialEq, Eq, Structural)]
pub enum AnimationDirection {
    Forward,
    Reverse,
    PingPong,
}

/// Static description of one frame: how long it is displayed, in
/// milliseconds, before playback advances.
#[derive(Debug, Copy, Clone, PartialEq, Eq, Structural)]
pub struct FrameInfo {
    pub delay_ms: u64,
}

/// A named sub-range of a clip's frames with its own playback direction.
/// The range is half-open: it spans the frames `start .. end`.
#[derive(Debug)]
pub struct TagInfo {
    pub name: String,
    pub start: usize,
    pub end: usize,
    pub direction: AnimationDirection,
}

/// Immutable description of one loaded animation clip, shared by every
/// running instance of that clip: the ordered frames and the tag table.
#[derive(Debug)]
pub struct ClipInfo {
    pub frames: Vec<FrameInfo>,
    pub tags: Vec<TagInfo>,
}

impl TagInfo {
    /// A tag is well formed for a clip of `frame_count` frames when its
    /// range is a non-empty span of valid frame indices. A ping-pong tag
    /// must span at least two frames: on a one-frame range the turn at the
    /// lower boundary would step out of the range.
    pub open spec fn wf(self, frame_count: int) -> bool {
        &&& self.start < self.end
        &&& self.end <= frame_count
        &&& self.direction == AnimationDirection::PingPong ==> self.end - self.start >= 2
    }
}

impl ClipInfo {
    /// The delay, in milliseconds, of the frame with the given index.
    pub open spec fn delay_of(self, frame: int) -> int {
        self.frames@[frame].delay_ms as int
    }

    /// Well-formedness of a loaded clip: at least one frame, every frame
    /// displayed for a positive time, every tag a valid range, and tag
    /// names unique. The asset pipeline is expected to establish this once
    /// at load time (see `is_valid`); playback trusts it on every tick.
    pub open spec fn wf(self) -> bool {
        &&& self.frames@.len() >= 1
        &&& forall|i: int|
            0 <= i < self.frames@.len() ==> #[trigger] self.frames@[i].delay_ms >= 1
        &&& forall|j: int|
            0 <= j < self.tags@.len() ==> (#[trigger] self.tags@[j]).wf(self.frames@.len() as int)
        &&& forall|j: int, k: int|
            0 <= j < k < self.tags@.len() ==> #[trigger] self.tags@[j].name@ != #[trigger] self.tags@[k].name@
    }

    /// The entry of the tag table with the given name, searching from
    /// index `i` on: the first entry whose name matches.
    pub open spec fn find_tag_from(self, name: Seq<char>, i: int) -> Option<TagInfo>
        decreases self.tags@.len() - i
            when 0 <= i <= self.tags@.len()
    {
        if i == self.tags@.len() {
            None
        } else if self.tags@[i].name@ == name {
            Some(self.tags@[i])
        } else {
            self.find_tag_from(name, i + 1)
        }
    }

    /// The tag table entry with the given name, if any.
    pub open spec fn spec_find_tag(self, name: Seq<char>) -> Option<TagInfo> {
        self.find_tag_from(name, 0)
    }

    /// The number of frames in the clip.
    pub fn frame_count(&self) -> (n: usize)
        ensures
            n == self.frames@.len(),
    {
        self.frames.len()
    }

    /// Looks a tag name up in the tag table; on success, the index of its
    /// entry.
    pub fn find_tag(&self, name: &String) -> (r: Option<usize>)
        ensures
            match r {
                Some(i) => i < self.tags@.len() && self.spec_find_tag(name@)
                    == Some(self.tags@[i as int]),
                None => self.spec_find_tag(name@) is None,
            },
    {
        let n = self.tags.len();
        let mut i: usize = 0;
        while i < n
            invariant
                n == self.tags@.len(),
                i <= n,
                self.find_tag_from(name@, 0) == self.find_tag_from(name@, i as int),
            decreases n - i,
        {
            if self.tags[i].name == *name {
                return Some(i);
            }
            i = i + 1;
        }
        None
    }

    /// A successful lookup yields an entry of the tag table.
    pub proof fn lemma_find_tag_from_is_entry(self, name: Seq<char>, i: int)
        requires
            0 <= i <= self.tags@.len(),
            self.find_tag_from(name, i) is Some,
        ensures
            exists|j: int|
                i <= j < self.tags@.len() && self.find_tag_from(name, i) == Some(
                    #[trigger] self.tags@[j],
                ),
        decreases self.tags@.len() - i,
    {
        if i < self.tags@.len() {
            if self.tags@[i].name@ == name {
                assert(self.find_tag_from(name, i) == Some(self.tags@[i]));
            } else {
                self.lemma_find_tag_from_is_entry(name, i + 1);
            }
        }
    }

    /// A tag found in a well-formed clip's table has a well-formed range.
    pub proof fn lemma_found_tag_wf(self, name: Seq<char>)
        requires
            self.wf(),
            self.spec_find_tag(name) is Some,
        ensures
            self.spec_find_tag(name)->0.wf(self.frames@.len() as int),
    {
        self.lemma_find_tag_from_is_entry(name, 0);
        let j = choose|j: int|
            0 <= j < self.tags@.len() && self.find_tag_from(name, 0) == Some(self.tags@[j]);
        assert(self.tags@[j].wf(self.frames@.len() as int));
    }

    /// Checks the clip's well-formedness. Meant for the asset pipeline, so
    /// that degenerate clip data (an empty clip, a zero-duration frame, an
    /// invalid or duplicated tag range) is rejected once at load time
    /// rather than on every tick.
    pub fn is_valid(&self) -> (r: bool)
        ensures
            r == self.wf(),
    {
        let frame_count = self.frames.len();
        if frame_count == 0 {
            return false;
        }
        let mut i: usize = 0;
        while i < frame_count
            invariant
                frame_count == self.frames@.len(),
                i <= frame_count,
                forall|x: int| 0 <= x < i ==> #[trigger] self.frames@[x].delay_ms >= 1,
            decreases frame_count - i,
        {
            if self.frames[i].delay_ms == 0 {
                return false;
            }
            i = i + 1;
        }
        let tag_count = self.tags.len();
        let mut j: usize = 0;
        while j < tag_count
            invariant
                frame_count == self.frames@.len(),
                tag_count == self.tags@.len(),
                j <= tag_count,
                forall|x: int|
                    0 <= x < j ==> (#[trigger] self.tags@[x]).wf(self.frames@.len() as int),
                forall|x: int, y: int|
                    0 <= x < y < j ==> #[trigger] self.tags@[x].name@ != #[trigger] self.tags@[y].name@,
            decreases tag_count - j,
        {
            let tag = &self.tags[j];
            if tag.start >= tag.end || tag.end > frame_count {
                return false;
            }
            if tag.end - tag.start < 2 && matches!(tag.direction, AnimationDirection::PingPong) {
                return false;
            }
            let mut k: usize = 0;
            while k < j
                invariant
                    tag_count == self.tags@.len(),
                    j < tag_count,
                    k <= j,
                    forall|x: int|
                        0 <= x < k ==> #[trigger] self.tags@[x].name@ != self.tags@[j as int].name@,
                decreases j - k,
            {
                if self.tags[k].name == self.tags[j].name {
                    return false;
                }
                k = k + 1;
            }
            j = j + 1;
        }
        true
    }
}

} // verus!
