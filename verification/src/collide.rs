//! Scans over the lists of the world: sliding a mover along all terrain,
//! finding what a box runs into, and removing what is gone.

use vstd::prelude::*;
use crate::actor::{resolve, Actor, Mobile};
use crate::geometry::{BoundingBox, Rect, Vec2};
use crate::terrain::{Terrain, TerrainKind};

verus! {

/// The displacement `desired` of a mover with the box `mover`, corrected
/// against the first `n` pieces of `terrain` in turn, each correction
/// starting from the result of the one before.
pub open spec fn slide_along(mover: Rect, desired: Vec2, terrain: Seq<Terrain>, n: int) -> Vec2
    decreases n,
{
    if n <= 0 {
        desired
    } else {
        resolve(mover, slide_along(mover, desired, terrain, n - 1), terrain[n - 1].bounds())
    }
}

/// The index of the first of `actors`, from `from` on, whose box overlaps
/// `probe`.
pub open spec fn first_overlap<A: Actor>(actors: Seq<A>, probe: Rect, from: int) -> Option<int>
    decreases actors.len() - from,
{
    if from < 0 || from >= actors.len() {
        None
    } else if actors[from].bounds().overlaps(probe) {
        Some(from)
    } else {
        first_overlap(actors, probe, from + 1)
    }
}

/// Whether a projectile with the box `probe` meets terrain that stops it.
pub open spec fn blocked(terrain: Seq<Terrain>, probe: Rect) -> bool {
    exists|i: int|
        0 <= i < terrain.len() && (#[trigger] terrain[i]).kind == TerrainKind::Block
            && terrain[i].bounds().overlaps(probe)
}

/// Whether each of `actors` is well formed.
pub open spec fn all_wf<A: Actor>(actors: Seq<A>) -> bool {
    forall|i: int| 0 <= i < actors.len() ==> (#[trigger] actors[i]).wf()
}

/// Those of `actors` that are still in the game, in their order.
pub open spec fn survivors<A: Actor>(actors: Seq<A>) -> Seq<A> {
    actors.filter(|a: A| a.alive())
}

/// Corrects the displacement `desired` of `mover` against each piece of
/// `terrain` in turn.
pub fn slide<M: Mobile>(mover: &M, desired: Vec2, terrain: &Vec<Terrain>) -> (corrected: Vec2)
    ensures
        corrected == slide_along(mover.bounds(), desired, terrain@, terrain@.len() as int),
{
    let mut corrected = desired;
    let mut i: usize = 0;
    while i < terrain.len()
        invariant
            i <= terrain@.len(),
            corrected == slide_along(mover.bounds(), desired, terrain@, i as int),
        decreases terrain@.len() - i,
    {
        let piece = terrain[i].bounding_box();
        corrected = mover.handle_collision(corrected, &piece);
        i = i + 1;
    }
    corrected
}

/// Where no actor from `from` up to `upto` overlaps the probe, the search
/// from `from` is the search from `upto`.
proof fn lemma_first_overlap_skips<A: Actor>(actors: Seq<A>, probe: Rect, from: int, upto: int)
    requires
        0 <= from <= upto <= actors.len(),
        forall|k: int| from <= k < upto ==> !(#[trigger] actors[k]).bounds().overlaps(probe),
    ensures
        first_overlap(actors, probe, from) == first_overlap(actors, probe, upto),
    decreases upto - from,
{
    if from < upto {
        lemma_first_overlap_skips(actors, probe, from + 1, upto);
    }
}

/// What [`first_overlap`] finds is the least index from `from` on whose
/// box overlaps the probe, and it finds nothing only where there is none.
pub proof fn lemma_first_overlap<A: Actor>(actors: Seq<A>, probe: Rect, from: int)
    requires
        0 <= from,
    ensures
        match first_overlap(actors, probe, from) {
            Some(i) => {
                &&& from <= i < actors.len()
                &&& actors[i].bounds().overlaps(probe)
                &&& forall|k: int| from <= k < i ==> !(#[trigger] actors[k]).bounds().overlaps(probe)
            },
            None => forall|k: int|
                from <= k < actors.len() ==> !(#[trigger] actors[k]).bounds().overlaps(probe),
        },
    decreases actors.len() - from,
{
    if from < actors.len() && !actors[from].bounds().overlaps(probe) {
        lemma_first_overlap(actors, probe, from + 1);
    }
}

/// The index of the first of `actors` whose box overlaps `probe`.
pub fn find_overlap<A: Actor>(actors: &Vec<A>, probe: &BoundingBox) -> (found: Option<usize>)
    ensures
        match found {
            Some(i) => first_overlap(actors@, probe@, 0) == Some(i as int) && i < actors@.len(),
            None => first_overlap(actors@, probe@, 0).is_none(),
        },
{
    let mut i: usize = 0;
    while i < actors.len()
        invariant
            i <= actors@.len(),
            forall|k: int| 0 <= k < i ==> !(#[trigger] actors@[k]).bounds().overlaps(probe@),
        decreases actors@.len() - i,
    {
        if actors[i].collides_with(probe) {
            proof {
                lemma_first_overlap_skips(actors@, probe@, 0, i as int);
            }
            return Some(i);
        }
        i = i + 1;
    }
    proof {
        lemma_first_overlap_skips(actors@, probe@, 0, actors@.len() as int);
    }
    None
}

/// Whether a projectile with the box `probe` meets terrain that stops it.
pub fn is_blocked(terrain: &Vec<Terrain>, probe: &BoundingBox) -> (r: bool)
    ensures
        r == blocked(terrain@, probe@),
{
    let mut i: usize = 0;
    while i < terrain.len()
        invariant
            i <= terrain@.len(),
            forall|k: int|
                0 <= k < i ==> !((#[trigger] terrain@[k]).kind == TerrainKind::Block
                    && terrain@[k].bounds().overlaps(probe@)),
        decreases terrain@.len() - i,
    {
        if terrain[i].stops_projectiles() && terrain[i].collides_with(probe) {
            return true;
        }
        i = i + 1;
    }
    false
}

/// Whether each of `actors` is well formed.
pub fn all_valid<A: Actor>(actors: &Vec<A>) -> (ok: bool)
    ensures
        ok == all_wf(actors@),
{
    let mut i: usize = 0;
    while i < actors.len()
        invariant
            i <= actors@.len(),
            forall|k: int| 0 <= k < i ==> (#[trigger] actors@[k]).wf(),
        decreases actors@.len() - i,
    {
        if !actors[i].is_valid() {
            return false;
        }
        i = i + 1;
    }
    true
}

/// Removes from `actors` those that are no longer in the game.
pub fn retain_alive<A: Actor + Copy>(actors: &mut Vec<A>)
    ensures
        final(actors)@ == survivors(old(actors)@),
{
    let mut kept: Vec<A> = Vec::new();
    let mut i: usize = 0;
    while i < actors.len()
        invariant
            i <= actors@.len(),
            kept@ == survivors(actors@.take(i as int)),
        decreases actors@.len() - i,
    {
        proof {
            let upto = actors@.take(i + 1);
            assert(upto.drop_last() == actors@.take(i as int));
            reveal(Seq::filter);
        }
        if actors[i].is_alive() {
            kept.push(actors[i]);
        }
        i = i + 1;
    }
    proof {
        assert(actors@.take(actors@.len() as int) == actors@);
    }
    *actors = kept;
}

/// Removal leaves only what is still in the game, and nothing that was
/// not there before.
pub proof fn lemma_survivors<A: Actor>(actors: Seq<A>)
    ensures
        survivors(actors).len() <= actors.len(),
        forall|i: int|
            0 <= i < survivors(actors).len() ==> (#[trigger] survivors(actors)[i]).alive()
                && actors.contains(survivors(actors)[i]),
        forall|i: int|
            0 <= i < actors.len() && (#[trigger] actors[i]).alive() ==> survivors(actors).contains(
                actors[i],
            ),
        (forall|i: int| 0 <= i < actors.len() ==> (#[trigger] actors[i]).alive()) ==> survivors(actors)
            == actors,
    decreases actors.len(),
{
    reveal(Seq::filter);
    let pred = |a: A| a.alive();
    if actors.len() > 0 {
        let front = actors.drop_last();
        lemma_survivors(front);
        let kept = survivors(front);
        assert forall|i: int| 0 <= i < survivors(actors).len() implies (#[trigger] survivors(
            actors,
        )[i]).alive() && actors.contains(survivors(actors)[i]) by {
            if i < kept.len() {
                assert(survivors(actors)[i] == kept[i]);
                assert(front.contains(kept[i]));
                let k = choose|k: int| 0 <= k < front.len() && front[k] == kept[i];
                assert(actors[k] == kept[i]);
            } else {
                assert(survivors(actors)[i] == actors.last());
                assert(actors[actors.len() - 1] == actors.last());
            }
        }
        assert forall|i: int| 0 <= i < actors.len() && (#[trigger] actors[i]).alive() implies survivors(
            actors,
        ).contains(actors[i]) by {
            if i < front.len() {
                assert(front[i] == actors[i]);
                assert(kept.contains(front[i]));
                let k = choose|k: int| 0 <= k < kept.len() && kept[k] == front[i];
                assert(survivors(actors)[k] == actors[i]);
            } else {
                assert(survivors(actors)[kept.len() as int] == actors[i]);
            }
        }
        if forall|i: int| 0 <= i < actors.len() ==> (#[trigger] actors[i]).alive() {
            assert forall|i: int| 0 <= i < front.len() implies (#[trigger] front[i]).alive() by {
                assert(front[i] == actors[i]);
            }
            assert(actors[actors.len() - 1].alive());
            assert(survivors(actors) == front.push(actors.last()));
            assert(front.push(actors.last()) == actors);
        }
    }
}

} // verus!
