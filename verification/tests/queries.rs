//! Queries, playback control, tag handles and clip validation.

use aseprite_anim::{AnimationDirection, AsepriteAnimation, AsepriteTag, ClipInfo, FrameInfo, TagInfo};

fn make_clip(delays: &[u64], tags: Vec<TagInfo>) -> ClipInfo {
    let frames = delays.iter().map(|&d| FrameInfo { delay_ms: d }).collect();
    ClipInfo { frames, tags }
}

fn tag(name: &str, start: usize, end: usize, direction: AnimationDirection) -> TagInfo {
    TagInfo { name: name.to_string(), start, end, direction }
}

#[test]
fn default_cursor_plays_the_whole_clip() {
    let anim = AsepriteAnimation::default();
    assert!(anim.is_playing());
    assert!(!anim.is_paused());
    assert_eq!(anim.current_frame(), 0);
    assert_eq!(anim.time_elapsed(), 0);
    assert_eq!(anim.tag, None);
    assert!(anim.tag_changed);
}

#[test]
fn from_string_selects_the_tag() {
    let anim = AsepriteAnimation::from("walk".to_string());
    assert_eq!(anim.tag.as_deref(), Some("walk"));
    assert!(anim.tag_changed);
    assert!(anim.is_playing());
}

#[test]
fn from_str_selects_the_tag() {
    let anim = AsepriteAnimation::from("idle");
    assert_eq!(anim.tag.as_deref(), Some("idle"));
    assert!(anim.tag_changed);
}

#[test]
fn play_pause_toggle() {
    let mut anim = AsepriteAnimation::default();
    anim.pause();
    assert!(anim.is_paused());
    anim.play();
    assert!(anim.is_playing());
    anim.toggle();
    assert!(anim.is_paused());
    anim.toggle();
    assert!(anim.is_playing());
}

#[test]
fn aseprite_tag_holds_its_name() {
    let t = AsepriteTag::new("walk");
    assert_eq!(t.name(), "walk");
    assert_eq!(t, AsepriteTag::new("walk"));
    assert_ne!(t, AsepriteTag::new("idle"));
}

#[test]
fn current_frame_duration_reads_the_frame_delay() {
    let clip = make_clip(&[10, 20, 30], vec![]);
    let mut anim = AsepriteAnimation::default();
    anim.advance(&clip, 0);
    assert_eq!(anim.current_frame_duration(&clip), 10);
    anim.advance(&clip, 10);
    assert_eq!(anim.current_frame_duration(&clip), 20);
}

#[test]
fn frame_count_counts_frames() {
    let clip = make_clip(&[10, 20, 30], vec![]);
    assert_eq!(clip.frame_count(), 3);
}

#[test]
fn find_tag_is_exact_and_case_sensitive() {
    let clip = make_clip(
        &[100, 100, 100, 100, 100],
        vec![
            tag("walk", 2, 5, AnimationDirection::Forward),
            tag("idle", 0, 2, AnimationDirection::Reverse),
        ],
    );
    assert_eq!(clip.find_tag(&"walk".to_string()), Some(0));
    assert_eq!(clip.find_tag(&"idle".to_string()), Some(1));
    assert_eq!(clip.find_tag(&"Walk".to_string()), None);
    assert_eq!(clip.find_tag(&"run".to_string()), None);
}

#[test]
fn last_frame_finished_only_on_the_final_frame() {
    let clip = make_clip(&[100, 100, 100, 100, 100], vec![tag(
        "walk",
        2,
        5,
        AnimationDirection::Forward,
    )]);
    let mut anim = AsepriteAnimation::from("walk".to_string());
    anim.advance(&clip, 0);
    // frames 2 and 3 are not the tag's final frame, whatever dt says
    assert!(!anim.last_frame_finished(&clip, 1000));
    anim.advance(&clip, 100);
    assert!(!anim.last_frame_finished(&clip, 1000));
    // frame 4 is final: finished exactly once accumulated + incoming time
    // covers the frame's full delay
    anim.advance(&clip, 140);
    assert_eq!(anim.current_frame(), 4);
    assert_eq!(anim.time_elapsed(), 40);
    assert!(!anim.last_frame_finished(&clip, 59));
    assert!(anim.last_frame_finished(&clip, 60));
    assert!(anim.last_frame_finished(&clip, 61));
}

#[test]
fn last_frame_finished_without_tag_is_false() {
    let clip = make_clip(&[10, 10], vec![]);
    let mut anim = AsepriteAnimation::default();
    anim.advance(&clip, 0);
    assert!(!anim.last_frame_finished(&clip, 1000));
}

#[test]
fn last_frame_finished_with_unknown_tag_is_false() {
    let clip = make_clip(&[10, 10], vec![]);
    let mut anim = AsepriteAnimation::from("run".to_string());
    anim.advance(&clip, 0);
    assert!(!anim.last_frame_finished(&clip, 1000));
}

#[test]
fn set_tag_schedules_a_reset() {
    let mut anim = AsepriteAnimation::default();
    let clip = make_clip(&[100, 100, 100, 100, 100], vec![tag(
        "walk",
        2,
        5,
        AnimationDirection::Forward,
    )]);
    anim.advance(&clip, 0);
    assert!(!anim.tag_changed);
    anim.set_tag(Some("walk".to_string()));
    assert!(anim.tag_changed);
    assert_eq!(anim.tag.as_deref(), Some("walk"));
    anim.set_tag(None);
    assert!(anim.tag_changed);
    assert_eq!(anim.tag, None);
}

#[test]
fn is_valid_accepts_a_well_formed_clip() {
    let clip = make_clip(
        &[100, 100, 100, 100, 100],
        vec![
            tag("walk", 2, 5, AnimationDirection::Forward),
            tag("idle", 0, 2, AnimationDirection::PingPong),
        ],
    );
    assert!(clip.is_valid());
}

#[test]
fn is_valid_rejects_an_empty_clip() {
    let clip = make_clip(&[], vec![]);
    assert!(!clip.is_valid());
}

#[test]
fn is_valid_rejects_a_zero_delay_frame() {
    let clip = make_clip(&[100, 0, 100], vec![]);
    assert!(!clip.is_valid());
}

#[test]
fn is_valid_rejects_an_empty_tag_range() {
    let clip = make_clip(&[100, 100], vec![tag("walk", 1, 1, AnimationDirection::Forward)]);
    assert!(!clip.is_valid());
}

#[test]
fn is_valid_rejects_a_range_past_the_clip() {
    let clip = make_clip(&[100, 100], vec![tag("walk", 0, 3, AnimationDirection::Forward)]);
    assert!(!clip.is_valid());
}

#[test]
fn is_valid_rejects_a_one_frame_pingpong() {
    let clip = make_clip(&[100, 100], vec![tag("pp", 1, 2, AnimationDirection::PingPong)]);
    assert!(!clip.is_valid());
}

#[test]
fn is_valid_rejects_duplicate_tag_names() {
    let clip = make_clip(
        &[100, 100, 100],
        vec![
            tag("walk", 0, 2, AnimationDirection::Forward),
            tag("walk", 1, 3, AnimationDirection::Reverse),
        ],
    );
    assert!(!clip.is_valid());
}

#[test]
fn in_sync_with_tracks_the_invariant() {
    let clip = make_clip(&[100, 100, 100, 100, 100], vec![tag(
        "walk",
        2,
        5,
        AnimationDirection::Forward,
    )]);
    let mut anim = AsepriteAnimation::from("walk".to_string());
    assert!(anim.in_sync_with(&clip));
    anim.advance(&clip, 0);
    assert!(anim.in_sync_with(&clip));
    // a cursor pointing past the clip's frames is out of sync
    let broken = AsepriteAnimation { current_frame: 9, ..AsepriteAnimation::default() };
    assert!(!broken.in_sync_with(&clip));
    // a settled cursor outside its selected tag's range is out of sync
    let strayed = AsepriteAnimation {
        tag: Some("walk".to_string()),
        current_frame: 0,
        tag_changed: false,
        ..AsepriteAnimation::default()
    };
    assert!(!strayed.in_sync_with(&clip));
}
