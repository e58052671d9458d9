use gardenfight::anim::{
    advance_frame, change_animation, next_frame_index, sprite_flip, AnimationProgress, Facing,
    FacingX, FacingY, SpriteFlip,
};

fn progress(index: usize, total_frames: u32, total_looped: u32) -> AnimationProgress {
    AnimationProgress { index, total_frames, total_looped }
}

#[test]
fn repeating_animation_wraps_and_counts_loops() {
    let mut p = AnimationProgress::new();
    advance_frame(&mut p, 3, true);
    assert_eq!(p, progress(1, 1, 0));
    advance_frame(&mut p, 3, true);
    assert_eq!(p, progress(2, 2, 0));
    advance_frame(&mut p, 3, true);
    assert_eq!(p, progress(0, 3, 1));
}

#[test]
fn one_shot_animation_holds_last_frame() {
    let mut p = progress(1, 1, 0);
    advance_frame(&mut p, 2, false);
    assert_eq!(p, progress(1, 1, 1));
    advance_frame(&mut p, 2, false);
    assert_eq!(p, progress(1, 1, 1));
}

#[test]
fn single_frame_animation() {
    let mut p = AnimationProgress::new();
    advance_frame(&mut p, 1, true);
    assert_eq!(p, progress(0, 1, 1));
}

#[test]
fn frame_index_wraps() {
    assert_eq!(next_frame_index(0, 3), 1);
    assert_eq!(next_frame_index(2, 3), 0);
    assert_eq!(next_frame_index(7, 3), 2);
}

#[test]
fn animation_change_restarts() {
    let mut p = progress(2, 10, 3);
    assert!(!change_animation(&mut p, true));
    assert_eq!(p, progress(2, 10, 3));
    assert!(change_animation(&mut p, false));
    assert_eq!(p, progress(0, 0, 0));
}

#[test]
fn flipping() {
    let lu = Facing { x: FacingX::Left, y: FacingY::Up };
    let rd = Facing { x: FacingX::Right, y: FacingY::Down };
    assert_eq!(sprite_flip(lu, false, false), SpriteFlip { flip_x: true, flip_y: false });
    assert_eq!(sprite_flip(rd, false, false), SpriteFlip { flip_x: false, flip_y: true });
    assert_eq!(sprite_flip(lu, true, true), SpriteFlip { flip_x: false, flip_y: true });
    assert_eq!(sprite_flip(rd, true, true), SpriteFlip { flip_x: true, flip_y: false });
}
