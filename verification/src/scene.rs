//! The mathematical model of the world, and of one frame of the simulation
//! as a function from scene to scene.

use vstd::prelude::*;
use crate::actor::{confinement, Actor, Mobile};
use crate::collide::{all_wf, blocked, first_overlap, slide_along, survivors};
use crate::enemy::{Enemy, Entrance, Retarget};
use crate::geometry::{Direction, Viewport};
use crate::input::Input;
use crate::player::{Player, Projectile};
use crate::stage::{enemy_cap, enemy_speed, next_stage, spawn_budget, MAX_STAGE};
use crate::terrain::{Hive, Terrain};

verus! {

/// Whether the stage is under way, won or lost.
#[derive(Clone, Copy, Debug, PartialEq, Eq, Structural)]
pub enum GameState {
    Running,
    Victory,
    Defeat,
}

impl Default for GameState {
    fn default() -> (state: GameState)
        ensures
            state == GameState::Running,
    {
        GameState::Running
    }
}

/// The world as a value: what a [`crate::world::World`] holds, its lists as
/// sequences.
pub struct Scene {
    pub state: GameState,
    pub player: Player,
    pub stage: usize,
    pub hives_saved: usize,
    pub projectiles: Seq<Projectile>,
    pub enemies: Seq<Enemy>,
    pub enemies_remaining: usize,
    pub terrain: Seq<Terrain>,
    pub hives: Seq<Hive>,
}

/// What chance decides for the adversary with index `i`: what is given for
/// it, or that it keeps its target where nothing is given.
pub open spec fn retarget_for(retargets: Seq<Retarget>, i: int) -> Retarget {
    if 0 <= i < retargets.len() {
        retargets[i]
    } else {
        Retarget::kept()
    }
}

impl Scene {
    pub open spec fn wf(self) -> bool {
        &&& self.player.wf()
        &&& self.stage <= MAX_STAGE
        &&& all_wf(self.projectiles)
        &&& all_wf(self.enemies)
        &&& all_wf(self.terrain)
        &&& all_wf(self.hives)
    }

    /// Nothing in the lists awaits removal: every projectile is active and
    /// every adversary and hive has a hit point left.
    pub open spec fn settled(self) -> bool {
        &&& forall|i: int|
            0 <= i < self.projectiles.len() ==> (#[trigger] self.projectiles[i]).alive()
        &&& forall|i: int| 0 <= i < self.enemies.len() ==> (#[trigger] self.enemies[i]).alive()
        &&& forall|i: int| 0 <= i < self.hives.len() ==> (#[trigger] self.hives[i]).alive()
    }

    /// The player turns and moves as the movement keys ask, sliding along
    /// the terrain, and is then brought back inside the playfield.
    pub open spec fn steered(self, input: Input) -> Scene {
        let turned = Player { direction: self.player.facing(input), ..self.player };
        let desired = slide_along(
            turned.bounds(),
            self.player.heading(input),
            self.terrain,
            self.terrain.len() as int,
        );
        let arrived = turned.moved(desired, input.now);
        Scene {
            player: arrived.moved(confinement(arrived.bounds(), input.view), input.now),
            ..self
        }
    }

    /// One fire key: where it is pressed and the number of projectiles is
    /// under the player's limit, a projectile leaves in its direction.
    pub open spec fn fired_one(self, pressed: bool, direction: Direction) -> Scene {
        if pressed && self.projectiles.len() < self.player.max_projectiles {
            Scene { projectiles: self.projectiles.push(self.player.shot(direction)), ..self }
        } else {
            self
        }
    }

    /// The four fire keys in the order up, down, left, right.
    pub open spec fn fired(self, input: Input) -> Scene {
        self.fired_one(input.fire_up, Direction::Up).fired_one(
            input.fire_down,
            Direction::Down,
        ).fired_one(input.fire_left, Direction::Left).fired_one(input.fire_right, Direction::Right)
    }

    /// The player's own tick: immunity runs out.
    pub open spec fn recovered(self, input: Input) -> Scene {
        Scene { player: self.player.ticked(input.now), ..self }
    }

    /// Whether an adversary is due: fewer are about than the stage allows
    /// at once, and the stage has some left to send.
    pub open spec fn spawn_due(self) -> bool {
        self.enemies.len() < enemy_cap(self.stage) && self.enemies_remaining > 0
    }

    /// Where an adversary is due, it enters as `spawn` says.
    pub open spec fn reinforced(self, input: Input, spawn: Entrance) -> Scene {
        if self.spawn_due() {
            Scene {
                enemies: self.enemies.push(
                    Enemy::spawned(
                        spawn.direction,
                        spawn.along,
                        enemy_speed(self.stage) as i32,
                        input.now,
                        input.view,
                    ),
                ),
                enemies_remaining: (self.enemies_remaining - 1) as usize,
                ..self
            }
        } else {
            self
        }
    }

    /// The frame of the projectile with index `j`: it flies on; if active,
    /// it wounds the first adversary that it overlaps, and is spent where
    /// it has wounded one, meets terrain that stops it, or has left the
    /// playfield.
    pub open spec fn shot(self, input: Input, j: int) -> Scene {
        let flown = self.projectiles[j].ticked(input.now);
        if flown.active {
            let victim = first_overlap(self.enemies, flown.bounds(), 0);
            let spent = victim.is_some() || blocked(self.terrain, flown.bounds())
                || flown.bounds().fully_offscreen(input.view);
            Scene {
                projectiles: self.projectiles.update(j, Projectile { active: !spent, ..flown }),
                enemies: match victim {
                    Some(i) => self.enemies.update(i, self.enemies[i].wounded(flown.damage)),
                    None => self.enemies,
                },
                ..self
            }
        } else {
            Scene { projectiles: self.projectiles.update(j, flown), ..self }
        }
    }

    /// The frames of the first `n` projectiles, in order.
    pub open spec fn volley(self, input: Input, n: int) -> Scene
        decreases n,
    {
        if n <= 0 {
            self
        } else {
            self.volley(input, n - 1).shot(input, n - 1)
        }
    }

    /// The frame of the adversary with index `i`: it takes a target as
    /// `retarget` says, moves towards it, sliding along the terrain, and ticks;
    /// where it then overlaps a hive, the first such hive is struck and the
    /// adversary destroyed; where it overlaps the player, the player is
    /// touched.
    pub open spec fn charged(self, input: Input, retarget: Retarget, i: int) -> Scene {
        let aimed = self.enemies[i].aimed(retarget);
        let desired = slide_along(
            aimed.bounds(),
            aimed.pull(),
            self.terrain,
            self.terrain.len() as int,
        );
        let arrived = aimed.moved(desired, input.now).ticked(input.now);
        let reached = first_overlap(self.hives, arrived.bounds(), 0);
        let after = if reached.is_some() {
            arrived.destroyed()
        } else {
            arrived
        };
        Scene {
            enemies: self.enemies.update(i, after),
            hives: match reached {
                Some(k) => self.hives.update(k, self.hives[k].struck()),
                None => self.hives,
            },
            player: if after.bounds().overlaps(self.player.bounds()) {
                self.player.touched(input.now)
            } else {
                self.player
            },
            ..self
        }
    }

    /// The frames of the first `n` adversaries, in order.
    pub open spec fn onslaught(self, input: Input, retargets: Seq<Retarget>, n: int) -> Scene
        decreases n,
    {
        if n <= 0 {
            self
        } else {
            self.onslaught(input, retargets, n - 1).charged(
                input,
                retarget_for(retargets, n - 1),
                n - 1,
            )
        }
    }

    /// Spent projectiles and adversaries and hives without a hit point are
    /// removed; the order of the others stays.
    pub open spec fn pruned(self) -> Scene {
        Scene {
            projectiles: survivors(self.projectiles),
            enemies: survivors(self.enemies),
            hives: survivors(self.hives),
            ..self
        }
    }

    /// The stage is lost where the player has no hit point or no hive is
    /// left; else it is won where no adversary is left and none is to come.
    pub open spec fn judged(self) -> Scene {
        if !self.player.alive() || self.hives.len() == 0 {
            Scene { state: GameState::Defeat, ..self }
        } else if self.enemies.len() == 0 && self.enemies_remaining == 0 {
            Scene { state: GameState::Victory, ..self }
        } else {
            self
        }
    }

    /// One frame of a stage under way, given what chance decides in it.
    pub open spec fn advanced(self, input: Input, spawn: Entrance, retargets: Seq<Retarget>) -> Scene {
        let ready = self.steered(input).fired(input).recovered(input).reinforced(input, spawn);
        let fought = ready.volley(input, ready.projectiles.len() as int);
        fought.onslaught(input, retargets, fought.enemies.len() as int).pruned().judged()
    }

    /// The start of stage `stage` with the given layout: a fresh player, no
    /// adversaries or projectiles, and the stage's budget of adversaries.
    pub open spec fn staged(
        stage: usize,
        hives_saved: usize,
        terrain: Seq<Terrain>,
        hives: Seq<Hive>,
        view: Viewport,
    ) -> Scene {
        Scene {
            state: GameState::Running,
            player: Player::fresh(view),
            stage,
            hives_saved,
            projectiles: Seq::empty(),
            enemies: Seq::empty(),
            enemies_remaining: spawn_budget(stage) as usize,
            terrain,
            hives,
        }
    }

    /// The number of hives saved so far, after those of this stage are added.
    pub open spec fn tally(self) -> usize {
        if self.hives_saved + self.hives.len() > usize::MAX {
            usize::MAX
        } else {
            (self.hives_saved + self.hives.len()) as usize
        }
    }

    /// One frame in any state. A stage under way advances. A stage that is
    /// won or lost waits for the confirm key: then a won stage is followed by
    /// the next, its hives added to the tally, and a lost one by the first
    /// stage with a tally of zero, either with the layout given.
    pub open spec fn ticked(
        self,
        input: Input,
        terrain: Seq<Terrain>,
        hives: Seq<Hive>,
        spawn: Entrance,
        retargets: Seq<Retarget>,
    ) -> Scene {
        match self.state {
            GameState::Running => self.advanced(input, spawn, retargets),
            GameState::Victory => if input.confirm {
                Scene::staged(next_stage(self.stage), self.tally(), terrain, hives, input.view)
            } else {
                self
            },
            GameState::Defeat => if input.confirm {
                Scene::staged(0, 0, terrain, hives, input.view)
            } else {
                self
            },
        }
    }
}

} // verus!
