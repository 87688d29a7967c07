//! The follow step: once per frame, place the camera at the tracked target.
//!
//! The host computes, for each tracked target, the camera transform that
//! looks at it (`placements`, in the host's iteration order); this step
//! decides whether and which one is written.
use crate::camera::TopDownCamera;
use vstd::prelude::*;

verus! {

/// Whether the follow step places the camera: it follows its target, or it
/// has never been placed.
pub open spec fn sync_applies(cam: TopDownCamera) -> bool {
    cam.follow || !cam.initial_setup
}

/// The camera record after one follow step: it is marked as placed when the
/// step applies and there is a target to place it at.
pub open spec fn synced_camera<T>(cam: TopDownCamera, placements: Seq<T>) -> TopDownCamera {
    if sync_applies(cam) && placements.len() > 0 {
        TopDownCamera { initial_setup: true, ..cam }
    } else {
        cam
    }
}

/// The camera transform after one follow step: the last target's placement
/// when the step applies and there is a target, the old transform otherwise.
pub open spec fn synced_transform<T>(cam: TopDownCamera, pos: T, placements: Seq<T>) -> T {
    if sync_applies(cam) && placements.len() > 0 {
        placements.last()
    } else {
        pos
    }
}

/// Camera record and transform after one follow step per entry of `frames`,
/// each entry holding that frame's placements.
pub open spec fn run_frames<T>(cam: TopDownCamera, pos: T, frames: Seq<Seq<T>>) -> (
    TopDownCamera,
    T,
)
    decreases frames.len(),
{
    if frames.len() == 0 {
        (cam, pos)
    } else {
        let (c, p) = run_frames(cam, pos, frames.drop_last());
        (synced_camera(c, frames.last()), synced_transform(c, p, frames.last()))
    }
}

/// Whether some frame of `frames` had a target.
pub open spec fn any_target<T>(frames: Seq<Seq<T>>) -> bool
    decreases frames.len(),
{
    frames.len() > 0 && (any_target(frames.drop_last()) || frames.last().len() > 0)
}

/// One follow step. When the camera follows its target or has not been placed
/// yet, and there is a target, it takes the placement of the last target
/// (later targets overwrite earlier ones) and is marked as placed; otherwise
/// nothing changes.
pub fn sync_player_camera<T: Copy>(cam: &mut TopDownCamera, pos: &mut T, placements: &[T])
    ensures
        *final(cam) == synced_camera(*old(cam), placements@),
        *final(pos) == synced_transform(*old(cam), *old(pos), placements@),
{
    if cam.initial_setup && !cam.follow {
        return ;
    }
    let ghost start = *pos;
    let mut i: usize = 0;
    while i < placements.len()
        invariant
            i <= placements@.len(),
            i == 0 ==> *pos == start,
            i > 0 ==> *pos == placements@[i - 1],
        decreases placements@.len() - i,
    {
        *pos = placements[i];
        i = i + 1;
    }
    if !cam.initial_setup && placements.len() > 0 {
        cam.initial_setup = true;
    }
}

/// A camera that has not been placed is placed by the first follow step that
/// has a target, and a placed camera stays placed: after a run of frames the
/// flag is set exactly when it was set before or some frame had a target.
pub proof fn lemma_initial_setup_monotonic<T>(cam: TopDownCamera, pos: T, frames: Seq<Seq<T>>)
    ensures
        run_frames(cam, pos, frames).0.initial_setup == (cam.initial_setup || any_target(frames)),
    decreases frames.len(),
{
    if frames.len() > 0 {
        lemma_initial_setup_monotonic(cam, pos, frames.drop_last());
    }
}

/// Once placed and not following, any number of further follow steps leave
/// the camera record and transform exactly as they were.
pub proof fn lemma_free_roam_is_idle<T>(cam: TopDownCamera, pos: T, frames: Seq<Seq<T>>)
    requires
        cam.initial_setup,
        !cam.follow,
    ensures
        run_frames(cam, pos, frames) == (cam, pos),
    decreases frames.len(),
{
    if frames.len() > 0 {
        lemma_free_roam_is_idle(cam, pos, frames.drop_last());
    }
}

/// Without any tracked target a follow step leaves the transform and the
/// whole camera record, its placement flag included, unchanged.
pub proof fn lemma_no_target_keeps_transform<T>(cam: TopDownCamera, pos: T, placements: Seq<T>)
    requires
        placements.len() == 0,
    ensures
        synced_transform(cam, pos, placements) == pos,
        synced_camera(cam, placements) == cam,
{
}

/// A camera with follow off is placed once at its target and then stays
/// where it was placed: a second frame gives the same transform as the first.
pub proof fn lemma_placed_once<T>(cam: TopDownCamera, pos: T, first: Seq<T>, second: Seq<T>)
    requires
        !cam.follow,
        !cam.initial_setup,
        first.len() > 0,
    ensures
        run_frames(cam, pos, seq![first]) == (
            TopDownCamera { initial_setup: true, ..cam },
            first.last(),
        ),
        run_frames(cam, pos, seq![first, second]) == run_frames(cam, pos, seq![first]),
{
    let one = seq![first];
    let two = seq![first, second];
    assert(one.drop_last() =~= Seq::<Seq<T>>::empty());
    assert(two.drop_last() =~= one);
    assert(run_frames(cam, pos, Seq::<Seq<T>>::empty()) == (cam, pos));
    assert(run_frames(cam, pos, one) == (
        synced_camera(cam, first),
        synced_transform(cam, pos, first),
    ));
    assert(run_frames(cam, pos, two) == (
        synced_camera(synced_camera(cam, first), second),
        synced_transform(synced_camera(cam, first), first.last(), second),
    ));
}

} // verus!
