//! The stages: how difficulty grows, and how a stage is laid out.

use vstd::prelude::*;
use crate::actor::Actor;
use crate::collide::{all_valid, all_wf};
use crate::geometry::Viewport;
use crate::random::{between, random_between};
use crate::terrain::{Hive, Terrain, TerrainKind};

verus! {

/// The last stage. A victory there is followed by the same stage again.
pub const MAX_STAGE: usize = 1_000_000;

/// Number of hives at the start of every stage.
pub const HIVES_PER_STAGE: usize = 3;

/// Least number of terrain pieces of a stage.
pub const TERRAIN_MIN_COUNT: i32 = 3;

/// Bound on the number of terrain pieces of the first stage; it grows by
/// one with each stage.
pub const TERRAIN_MAX_COUNT: i32 = 10;

/// Number of adversaries that appear in the course of stage `stage`.
pub open spec fn spawn_budget(stage: usize) -> int {
    (stage + 1) * 10
}

/// Number of adversaries that may be about at once in stage `stage`.
pub open spec fn enemy_cap(stage: usize) -> int {
    (stage + 1) * 5
}

/// Speed of the adversaries of stage `stage`, in units per frame: one pixel,
/// and half a pixel more with each stage.
pub open spec fn enemy_speed(stage: usize) -> int {
    stage * 500 + 1000
}

/// The stage that follows `stage`.
pub open spec fn next_stage(stage: usize) -> usize {
    if stage < MAX_STAGE {
        (stage + 1) as usize
    } else {
        stage
    }
}

/// From each stage to the next the adversaries become faster and more
/// numerous, in all and at once.
pub proof fn lemma_difficulty_grows(stage: usize)
    requires
        stage < MAX_STAGE,
    ensures
        next_stage(stage) == stage + 1,
        enemy_speed(next_stage(stage)) > enemy_speed(stage),
        spawn_budget(next_stage(stage)) > spawn_budget(stage),
        enemy_cap(next_stage(stage)) > enemy_cap(stage),
{
}

/// The terrain and the hives of a stage.
#[derive(Clone, Debug, PartialEq, Eq)]
pub struct Layout {
    pub terrain: Vec<Terrain>,
    pub hives: Vec<Hive>,
}

impl Layout {
    pub open spec fn wf(self) -> bool {
        all_wf(self.terrain@) && all_wf(self.hives@)
    }

    pub fn is_valid(&self) -> (ok: bool)
        ensures
            ok == self.wf(),
    {
        all_valid(&self.terrain) && all_valid(&self.hives)
    }

    /// What holds of every layout that [`Layout::random`] may return for
    /// stage `stage` on the playfield `view`: some flowers, their number
    /// between the two bounds of the stage, and the hives of a stage at
    /// full health, each placed as its kind is scattered.
    pub open spec fn scattered(self, stage: usize, view: Viewport) -> bool {
        &&& between(
            TERRAIN_MIN_COUNT as int,
            TERRAIN_MAX_COUNT + stage,
            self.terrain@.len() as int,
        )
        &&& forall|i: int|
            0 <= i < self.terrain@.len() ==> {
                &&& (#[trigger] self.terrain@[i]).kind == TerrainKind::Flower
                &&& (Terrain { kind: TerrainKind::Block, ..self.terrain@[i] }).scattered(view)
            }
        &&& self.hives@.len() == HIVES_PER_STAGE
        &&& forall|i: int| 0 <= i < self.hives@.len() ==> (#[trigger] self.hives@[i]).scattered(view)
    }

    /// A layout with nothing in it.
    pub fn empty() -> (layout: Layout)
        ensures
            layout.terrain@.len() == 0,
            layout.hives@.len() == 0,
            layout.wf(),
    {
        Layout { terrain: Vec::new(), hives: Vec::new() }
    }

    /// A random layout for stage `stage`.
    pub fn random(stage: usize, view: &Viewport) -> (layout: Layout)
        requires
            stage <= MAX_STAGE,
            view.wf(),
        ensures
            layout.scattered(stage, *view),
            layout.wf(),
    {
        let count: i32 = random_between(TERRAIN_MIN_COUNT, TERRAIN_MAX_COUNT + stage as i32);
        let mut terrain: Vec<Terrain> = Vec::new();
        let mut placed: i32 = 0;
        while placed < count
            invariant
                view.wf(),
                0 <= placed <= count,
                terrain@.len() == placed,
                forall|i: int|
                    0 <= i < terrain@.len() ==> {
                        &&& (#[trigger] terrain@[i]).kind == TerrainKind::Flower
                        &&& (Terrain { kind: TerrainKind::Block, ..terrain@[i] }).scattered(*view)
                        &&& terrain@[i].wf()
                    },
            decreases count - placed,
        {
            let mut flower = Terrain::random(view);
            flower.kind = TerrainKind::Flower;
            terrain.push(flower);
            placed = placed + 1;
        }
        let mut hives: Vec<Hive> = Vec::new();
        let mut built: usize = 0;
        while built < HIVES_PER_STAGE
            invariant
                view.wf(),
                built <= HIVES_PER_STAGE,
                hives@.len() == built,
                forall|i: int|
                    0 <= i < hives@.len() ==> (#[trigger] hives@[i]).scattered(*view)
                        && hives@[i].wf(),
            decreases HIVES_PER_STAGE - built,
        {
            hives.push(Hive::random(view));
            built = built + 1;
        }
        Layout { terrain, hives }
    }
}

} // verus!
