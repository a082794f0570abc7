use pawsse::animation::AnimationClip;

fn two_frame_clip(start_ms: u64) -> AnimationClip {
    AnimationClip::new(vec![7, 8], 100, start_ms)
}

#[test]
fn new_clip_starts_at_first_frame() {
    let clip = two_frame_clip(0);
    assert_eq!(clip.current_index, 0);
    assert_eq!(clip.current_frame(), 7);
    assert_eq!(clip.cycles_completed(), 0);
}

#[test]
fn advance_before_duration_is_a_no_op() {
    let mut clip = two_frame_clip(0);
    clip.advance(99);
    assert_eq!(clip.current_index, 0);
    assert_eq!(clip.cycles_completed(), 0);
    assert_eq!(clip.last_advance_ms, 0);
}

#[test]
fn advance_at_duration_steps_one_frame() {
    let mut clip = two_frame_clip(0);
    clip.advance(100);
    assert_eq!(clip.current_index, 1);
    assert_eq!(clip.current_frame(), 8);
    assert_eq!(clip.cycles_completed(), 0);
    assert_eq!(clip.last_advance_ms, 100);
}

#[test]
fn two_frames_at_tenth_of_a_second_cycle_counts() {
    // A clip with 2 frames and 0.1 s per frame, advanced in 0.1 s steps:
    // one full cycle after exactly 2 advances, three after 6.
    let mut clip = two_frame_clip(0);
    let mut now: u64 = 0;
    for step in 1..=6u64 {
        now += 100;
        clip.advance(now);
        match step {
            1 => assert_eq!(clip.cycles_completed(), 0),
            2 => assert_eq!(clip.cycles_completed(), 1),
            3 => assert_eq!(clip.cycles_completed(), 1),
            4 => assert_eq!(clip.cycles_completed(), 2),
            5 => assert_eq!(clip.cycles_completed(), 2),
            _ => assert_eq!(clip.cycles_completed(), 3),
        }
    }
    assert_eq!(clip.current_index, 0);
}

#[test]
fn single_frame_clip_cycles_every_advance() {
    let mut clip = AnimationClip::new(vec![3], 50, 0);
    clip.advance(50);
    assert_eq!(clip.current_index, 0);
    assert_eq!(clip.cycles_completed(), 1);
    clip.advance(100);
    assert_eq!(clip.cycles_completed(), 2);
}

#[test]
fn late_advance_still_steps_once() {
    let mut clip = two_frame_clip(0);
    clip.advance(1000);
    assert_eq!(clip.current_index, 1);
    assert_eq!(clip.cycles_completed(), 0);
    assert_eq!(clip.last_advance_ms, 1000);
}
