use vstd::prelude::*;

verus! {

/// Horizontal facing of an entity.
#[derive(Clone, Copy, Debug, PartialEq, Eq, Structural)]
pub enum FacingX {
    Left,
    Right,
}

/// Vertical facing of an entity.
#[derive(Clone, Copy, Debug, PartialEq, Eq, Structural)]
pub enum FacingY {
    Up,
    Down,
}

/// Where an entity looks.
#[derive(Clone, Copy, Debug, PartialEq, Eq, Structural)]
pub struct Facing {
    pub x: FacingX,
    pub y: FacingY,
}

/// How a sprite is mirrored.
#[derive(Clone, Copy, Debug, PartialEq, Eq, Structural)]
pub struct SpriteFlip {
    pub flip_x: bool,
    pub flip_y: bool,
}

/// How a sprite facing `facing` is mirrored.
pub open spec fn spec_sprite_flip(facing: Facing, facing_flipped: bool, facing_y_flipped: bool) -> SpriteFlip {
    SpriteFlip {
        flip_x: if facing.x == FacingX::Left { !facing_flipped } else { facing_flipped },
        flip_y: if facing.y == FacingY::Up { facing_y_flipped } else { !facing_y_flipped },
    }
}

/// A sprite drawn facing right and down is mirrored to face left or up;
/// an animation drawn the other way round (`facing_flipped`, `facing_y_flipped`)
/// is mirrored the other way.
pub fn sprite_flip(facing: Facing, facing_flipped: bool, facing_y_flipped: bool) -> (r: SpriteFlip)
    ensures
        r == spec_sprite_flip(facing, facing_flipped, facing_y_flipped),
{
    let flip_x = match facing.x {
        FacingX::Left => !facing_flipped,
        FacingX::Right => facing_flipped,
    };
    let flip_y = match facing.y {
        FacingY::Up => facing_y_flipped,
        FacingY::Down => !facing_y_flipped,
    };
    SpriteFlip { flip_x, flip_y }
}

/// Turning around mirrors the sprite the other way, on that axis only.
pub proof fn lemma_turning_toggles_flip(a: Facing, b: Facing, f: bool, fy: bool)
    ensures
        a.x != b.x ==> spec_sprite_flip(a, f, fy).flip_x != spec_sprite_flip(b, f, fy).flip_x,
        a.y != b.y ==> spec_sprite_flip(a, f, fy).flip_y != spec_sprite_flip(b, f, fy).flip_y,
        a.x == b.x ==> spec_sprite_flip(a, f, fy).flip_x == spec_sprite_flip(b, f, fy).flip_x,
        a.y == b.y ==> spec_sprite_flip(a, f, fy).flip_y == spec_sprite_flip(b, f, fy).flip_y,
{
}

/// The horizontal mirroring follows the horizontal facing and the animation's
/// horizontal flag alone, and the vertical mirroring the vertical facing and
/// the vertical flag alone: flipping a flag flips that axis only, and a sprite
/// drawn facing right and up, looking right and up, is not mirrored.
pub proof fn lemma_flip_flags_per_axis(facing: Facing, f: bool, fy: bool, g: bool, gy: bool)
    ensures
        spec_sprite_flip(facing, f, fy).flip_x != spec_sprite_flip(facing, !f, fy).flip_x,
        spec_sprite_flip(facing, f, fy).flip_y != spec_sprite_flip(facing, f, !fy).flip_y,
        spec_sprite_flip(facing, f, fy).flip_x == spec_sprite_flip(facing, f, gy).flip_x,
        spec_sprite_flip(facing, f, fy).flip_y == spec_sprite_flip(facing, g, fy).flip_y,
        !spec_sprite_flip(Facing { x: FacingX::Right, y: facing.y }, false, fy).flip_x,
        spec_sprite_flip(Facing { x: FacingX::Left, y: facing.y }, false, fy).flip_x,
        !spec_sprite_flip(Facing { x: facing.x, y: FacingY::Up }, f, false).flip_y,
        spec_sprite_flip(Facing { x: facing.x, y: FacingY::Down }, f, false).flip_y,
{
}

/// Frame counters of a playing animation.
#[derive(Clone, Copy, Debug, PartialEq, Eq, Structural)]
pub struct AnimationProgress {
    /// Frame shown, as an index into the animation's texture atlas.
    pub index: usize,
    /// Frames advanced since the animation started.
    pub total_frames: u32,
    /// Times the animation reached its last frame.
    pub total_looped: u32,
}

impl AnimationProgress {
    /// An animation that has not advanced yet.
    pub fn new() -> (r: Self)
        ensures
            r.index == 0,
            r.total_frames == 0,
            r.total_looped == 0,
    {
        AnimationProgress { index: 0, total_frames: 0, total_looped: 0 }
    }
}

/// The frame after `index` in an atlas of `frame_count` frames, wrapping around.
pub open spec fn spec_next_frame(index: int, frame_count: int) -> int {
    (index + 1) % frame_count
}

/// What one tick of the frame timer does to an animation of `frame_count` frames.
pub open spec fn spec_advance_frame(p: AnimationProgress, frame_count: int, repeating: bool) -> AnimationProgress {
    let at_last = p.index + 1 == frame_count;
    if at_last && !repeating {
        AnimationProgress { total_looped: 1, ..p }
    } else {
        AnimationProgress {
            index: spec_next_frame(p.index as int, frame_count) as usize,
            total_frames: (p.total_frames + 1) as u32,
            total_looped: if at_last { (p.total_looped + 1) as u32 } else { p.total_looped },
        }
    }
}

/// The frame after `index`, wrapping around at the end of the atlas.
pub fn next_frame_index(index: usize, frame_count: usize) -> (r: usize)
    requires
        frame_count > 0,
        index < usize::MAX,
    ensures
        r == spec_next_frame(index as int, frame_count as int),
        r < frame_count,
{
    (index + 1) % frame_count
}

/// One tick of an animation's frame timer: a one-shot animation that shows its
/// last frame stays there and is marked as played once; otherwise the next frame
/// is shown, wrapping around to the first after the last, which counts a loop.
pub fn advance_frame(progress: &mut AnimationProgress, frame_count: usize, repeating: bool)
    requires
        frame_count > 0,
        old(progress).index < usize::MAX,
        old(progress).total_frames < u32::MAX,
        old(progress).total_looped < u32::MAX,
    ensures
        *final(progress) == spec_advance_frame(*old(progress), frame_count as int, repeating),
        old(progress).index + 1 < frame_count ==> {
            &&& final(progress).index == old(progress).index + 1
            &&& final(progress).total_frames == old(progress).total_frames + 1
            &&& final(progress).total_looped == old(progress).total_looped
        },
{
    proof {
        if progress.index + 1 < frame_count {
            lemma_advance_before_last(*progress, frame_count as int, repeating);
        }
    }
    if progress.index + 1 == frame_count {
        if !repeating {
            progress.total_looped = 1;
            return;
        }
        progress.total_looped = progress.total_looped + 1;
    }
    progress.total_frames = progress.total_frames + 1;
    progress.index = next_frame_index(progress.index, frame_count);
}

/// Switching to an animation with another texture restarts the counters at the
/// first frame; switching to the animation already shown changes nothing.
/// Returns whether the animation was switched.
pub fn change_animation(progress: &mut AnimationProgress, same_texture: bool) -> (switched: bool)
    ensures
        switched == !same_texture,
        same_texture ==> *final(progress) == *old(progress),
        !same_texture ==> *final(progress) == (AnimationProgress { index: 0, total_frames: 0, total_looped: 0 }),
{
    if same_texture {
        return false;
    }
    *progress = AnimationProgress::new();
    true
}

/// An animation that ticks from a frame inside its atlas stays inside it.
pub proof fn lemma_advance_stays_in_atlas(p: AnimationProgress, frame_count: int, repeating: bool)
    requires
        frame_count > 0,
        p.index < frame_count,
    ensures
        spec_advance_frame(p, frame_count, repeating).index < frame_count,
{
}

/// Before its last frame every animation, one-shot or repeating, moves one frame
/// on per tick, counts the frame and counts no loop; whether it repeats only
/// matters on the last frame.
pub proof fn lemma_advance_before_last(p: AnimationProgress, frame_count: int, repeating: bool)
    requires
        p.index + 1 < frame_count <= usize::MAX,
        p.total_frames < u32::MAX,
    ensures
        spec_advance_frame(p, frame_count, repeating).index == p.index + 1,
        spec_advance_frame(p, frame_count, repeating).total_frames == p.total_frames + 1,
        spec_advance_frame(p, frame_count, repeating).total_looped == p.total_looped,
        spec_advance_frame(p, frame_count, true) == spec_advance_frame(p, frame_count, false),
{
    assert((p.index + 1) % frame_count == p.index + 1) by (nonlinear_arith)
        requires 0 <= p.index + 1 < frame_count;
}

/// A one-shot animation that reached its last frame stays there however often it ticks.
pub proof fn lemma_one_shot_holds_last_frame(p: AnimationProgress, frame_count: int)
    requires
        frame_count > 0,
        p.index + 1 == frame_count,
    ensures
        spec_advance_frame(p, frame_count, false).index == p.index,
        spec_advance_frame(spec_advance_frame(p, frame_count, false), frame_count, false)
            == spec_advance_frame(p, frame_count, false),
{
}

/// A repeating animation ticked from its last frame comes back to the first and counts a loop.
pub proof fn lemma_repeat_wraps(p: AnimationProgress, frame_count: int)
    requires
        frame_count > 0,
        p.index + 1 == frame_count,
        p.total_looped < u32::MAX,
        p.total_frames < u32::MAX,
    ensures
        spec_advance_frame(p, frame_count, true).index == 0,
        spec_advance_frame(p, frame_count, true).total_looped == p.total_looped + 1,
{
}

} // verus!
