//! The world: the owner of every entity, advanced one frame at a time.

use vstd::prelude::*;
use crate::actor::{Actor, Mobile};
use crate::collide::{all_valid, find_overlap, is_blocked, lemma_survivors, retain_alive, slide};
use crate::enemy::{Enemy, Entrance, Retarget};
use crate::geometry::{Direction, Viewport};
use crate::input::Input;
use crate::player::{Player, Projectile};
use crate::scene::{GameState, Scene};
use crate::stage::{enemy_cap, enemy_speed, next_stage, Layout, MAX_STAGE};
use crate::terrain::{Hive, Terrain};

verus! {

/// Everything that chance decides in one frame.
#[derive(Clone, Debug, PartialEq, Eq)]
pub struct Chance {
    /// The layout of the stage that begins, where one begins.
    pub layout: Layout,
    /// Where an adversary enters, where one is due.
    pub spawn: Entrance,
    /// What each adversary does about its target, by the adversary's index
    /// in the world's list once the one that is due has entered.
    pub retargets: Vec<Retarget>,
}

impl Chance {
    pub open spec fn wf(self) -> bool {
        self.layout.wf()
    }

    /// What holds of everything that [`World::chance`] may return for the
    /// scene `scene` in the frame `input`.
    pub open spec fn possible(self, scene: Scene, input: Input) -> bool {
        match scene.state {
            GameState::Running => {
                &&& self.spawn.possible(input.view)
                &&& self.retargets@.len() == scene.enemies.len() + 1
                &&& forall|i: int|
                    0 <= i < self.retargets@.len() ==> (#[trigger] self.retargets@[i]).possible(
                        scene.hives,
                    )
            },
            GameState::Victory => input.confirm ==> self.layout.scattered(
                next_stage(scene.stage),
                input.view,
            ),
            GameState::Defeat => input.confirm ==> self.layout.scattered(0, input.view),
        }
    }

    /// Chance that decides nothing: no layout, and every target kept.
    pub fn none() -> (chance: Chance)
        ensures
            chance.wf(),
            chance.layout.terrain@.len() == 0,
            chance.layout.hives@.len() == 0,
            chance.spawn == (Entrance { direction: Direction::Up, along: 0 }),
            chance.retargets@.len() == 0,
    {
        Chance {
            layout: Layout::empty(),
            spawn: Entrance { direction: Direction::Up, along: 0 },
            retargets: Vec::new(),
        }
    }
}

/// The state of the game: the player, the stage and every entity in it.
#[derive(Clone, Debug, PartialEq, Eq)]
pub struct World {
    pub state: GameState,
    pub player: Player,
    pub stage: usize,
    pub hives_saved: usize,
    pub projectiles: Vec<Projectile>,
    pub enemies: Vec<Enemy>,
    pub enemies_remaining: usize,
    pub terrain: Vec<Terrain>,
    pub hives: Vec<Hive>,
}

impl View for World {
    type V = Scene;

    open spec fn view(&self) -> Scene {
        Scene {
            state: self.state,
            player: self.player,
            stage: self.stage,
            hives_saved: self.hives_saved,
            projectiles: self.projectiles@,
            enemies: self.enemies@,
            enemies_remaining: self.enemies_remaining,
            terrain: self.terrain@,
            hives: self.hives@,
        }
    }
}

impl World {
    pub open spec fn wf(&self) -> bool {
        self@.wf()
    }

    /// Whether the world is well formed: the stage within its bound, and
    /// every entity with positive extents, a speed that is not negative and
    /// hit points within their bounds.
    pub fn is_valid(&self) -> (ok: bool)
        ensures
            ok == self.wf(),
    {
        self.player.is_valid() && self.stage <= MAX_STAGE && all_valid(&self.projectiles)
            && all_valid(&self.enemies) && all_valid(&self.terrain) && all_valid(&self.hives)
    }

    /// The first stage before it is laid out: a fresh player on an empty
    /// playfield.
    pub fn new(view: &Viewport) -> (world: World)
        requires
            view.wf(),
        ensures
            world@ == Scene::staged(0, 0, Seq::empty(), Seq::empty(), *view),
            world.wf(),
    {
        World {
            state: GameState::Running,
            player: Player::new(view),
            stage: 0,
            hives_saved: 0,
            projectiles: Vec::new(),
            enemies: Vec::new(),
            enemies_remaining: 10,
            terrain: Vec::new(),
            hives: Vec::new(),
        }
    }

    /// Number of adversaries that may be about at once in this stage.
    pub fn max_enemies(&self) -> (cap: usize)
        requires
            self.stage <= MAX_STAGE,
        ensures
            cap == enemy_cap(self.stage),
    {
        (self.stage + 1) * 5
    }

    /// Speed of the adversaries of this stage.
    pub fn stage_speed(&self) -> (speed: i32)
        requires
            self.stage <= MAX_STAGE,
        ensures
            speed == enemy_speed(self.stage),
    {
        self.stage as i32 * 500 + 1000
    }

    /// Begins the current stage with the given layout.
    pub fn install(&mut self, layout: Layout, view: &Viewport)
        requires
            old(self).stage <= MAX_STAGE,
            layout.wf(),
            view.wf(),
        ensures
            final(self)@ == Scene::staged(
                old(self).stage,
                old(self).hives_saved,
                layout.terrain@,
                layout.hives@,
                *view,
            ),
            final(self).wf(),
    {
        self.terrain = layout.terrain;
        self.hives = layout.hives;
        self.enemies_remaining = (self.stage + 1) * 10;
        self.state = GameState::Running;
        self.player = Player::new(view);
        self.enemies = Vec::new();
        self.projectiles = Vec::new();
    }

    /// Begins the current stage with a random layout.
    pub fn set_stage(&mut self, view: &Viewport)
        requires
            old(self).stage <= MAX_STAGE,
            view.wf(),
        ensures
            exists|layout: Layout| #[trigger]
                layout.scattered(old(self).stage, *view) && final(self)@ == Scene::staged(
                    old(self).stage,
                    old(self).hives_saved,
                    layout.terrain@,
                    layout.hives@,
                    *view,
                ),
            final(self).wf(),
    {
        let layout = Layout::random(self.stage, view);
        self.install(layout, view);
    }

    /// Begins the game anew: the first stage, with no hive saved.
    pub fn reset(&mut self, view: &Viewport)
        requires
            view.wf(),
        ensures
            exists|layout: Layout| #[trigger]
                layout.scattered(0, *view) && final(self)@ == Scene::staged(
                    0,
                    0,
                    layout.terrain@,
                    layout.hives@,
                    *view,
                ),
            final(self).wf(),
    {
        self.stage = 0;
        self.hives_saved = 0;
        self.set_stage(view);
    }

    /// Begins the stage after the current one with a random layout, the
    /// hives that stand added to the tally.
    pub fn advance_stage(&mut self, view: &Viewport)
        requires
            old(self).stage <= MAX_STAGE,
            view.wf(),
        ensures
            exists|layout: Layout| #[trigger]
                layout.scattered(next_stage(old(self).stage), *view) && final(self)@ == Scene::staged(
                    next_stage(old(self).stage),
                    old(self)@.tally(),
                    layout.terrain@,
                    layout.hives@,
                    *view,
                ),
            final(self).wf(),
    {
        self.count_stage();
        self.set_stage(view);
    }

    /// Moves on to the next stage index and adds the hives that stand to
    /// the tally.
    fn count_stage(&mut self)
        requires
            old(self).stage <= MAX_STAGE,
        ensures
            final(self)@ == (Scene {
                stage: next_stage(old(self).stage),
                hives_saved: old(self)@.tally(),
                ..old(self)@
            }),
    {
        if self.stage < MAX_STAGE {
            self.stage = self.stage + 1;
        }
        self.hives_saved = self.hives_saved.saturating_add(self.hives.len());
    }

    fn fire(&mut self, pressed: bool, direction: Direction)
        ensures
            final(self)@ == old(self)@.fired_one(pressed, direction),
            old(self).wf() ==> final(self).wf(),
    {
        if pressed && self.projectiles.len() < self.player.max_projectiles {
            let projectile = self.player.shoot(direction);
            self.projectiles.push(projectile);
        }
    }

    /// Moves the player as the movement keys ask and fires as the fire
    /// keys ask.
    fn handle_input(&mut self, input: &Input)
        ensures
            final(self)@ == old(self)@.steered(*input).fired(*input),
            old(self).wf() ==> final(self).wf(),
    {
        let mut player = self.player;
        let desired = player.handle_input(input);
        let desired = slide(&player, desired, &self.terrain);
        player.move_by(desired, input.now);
        player.screen_constrain(&input.view, input.now);
        self.player = player;
        self.fire(input.fire_up, Direction::Up);
        self.fire(input.fire_down, Direction::Down);
        self.fire(input.fire_left, Direction::Left);
        self.fire(input.fire_right, Direction::Right);
    }

    /// Lets an adversary enter where one is due.
    fn reinforce(&mut self, input: &Input, spawn: Entrance)
        requires
            old(self).stage <= MAX_STAGE,
        ensures
            final(self)@ == old(self)@.reinforced(*input, spawn),
            old(self).wf() ==> final(self).wf(),
    {
        if self.enemies.len() < self.max_enemies() && self.enemies_remaining > 0 {
            let newcomer = Enemy::spawn(
                spawn.direction,
                spawn.along,
                self.stage_speed(),
                input.now,
                &input.view,
            );
            self.enemies.push(newcomer);
            self.enemies_remaining = self.enemies_remaining - 1;
        }
    }

    /// The frame of the projectile with index `j`.
    fn advance_projectile(&mut self, input: &Input, j: usize)
        requires
            j < old(self).projectiles@.len(),
        ensures
            final(self)@ == old(self)@.shot(*input, j as int),
            old(self).wf() ==> final(self).wf(),
    {
        let mut projectile = self.projectiles[j];
        projectile.tick(input.now);
        if projectile.active {
            let probe = projectile.bounding_box();
            let mut spent = false;
            if let Some(i) = find_overlap(&self.enemies, &probe) {
                let mut victim = self.enemies[i];
                victim.wound(projectile.damage);
                self.enemies.set(i, victim);
                spent = true;
            }
            if is_blocked(&self.terrain, &probe) {
                spent = true;
            }
            if probe.fully_offscreen(&input.view) {
                spent = true;
            }
            projectile.active = !spent;
        }
        self.projectiles.set(j, projectile);
    }

    /// The frame of the adversary with index `i`.
    fn advance_enemy(&mut self, input: &Input, retarget: &Retarget, i: usize)
        requires
            i < old(self).enemies@.len(),
            old(self).enemies@[i as int].speed >= 0,
        ensures
            final(self)@ == old(self)@.charged(*input, *retarget, i as int),
            old(self).wf() ==> final(self).wf(),
    {
        let mut enemy = self.enemies[i];
        let desired = enemy.seek(retarget);
        let desired = slide(&enemy, desired, &self.terrain);
        enemy.move_by(desired, input.now);
        enemy.tick(input.now);
        let probe = enemy.bounding_box();
        if let Some(k) = find_overlap(&self.hives, &probe) {
            let mut hive = self.hives[k];
            hive.strike();
            self.hives.set(k, hive);
            enemy.hp = 0;
        }
        if enemy.collides_with(&self.player.bounding_box()) {
            self.player.touch(input.now);
        }
        self.enemies.set(i, enemy);
    }

    /// The frames of all projectiles, in order.
    fn volley(&mut self, input: &Input)
        ensures
            final(self)@ == old(self)@.volley(*input, old(self).projectiles@.len() as int),
            old(self).wf() ==> final(self).wf(),
    {
        let n: usize = self.projectiles.len();
        let mut j: usize = 0;
        while j < n
            invariant
                j <= n,
                self.projectiles@.len() == n,
                self@ == old(self)@.volley(*input, j as int),
                old(self).wf() ==> self.wf(),
            decreases n - j,
        {
            self.advance_projectile(input, j);
            j = j + 1;
        }
    }

    /// The frames of all adversaries, in order.
    fn onslaught(&mut self, input: &Input, retargets: &Vec<Retarget>)
        requires
            old(self).wf(),
        ensures
            final(self)@ == old(self)@.onslaught(*input, retargets@, old(self).enemies@.len() as int),
            final(self).wf(),
    {
        let n: usize = self.enemies.len();
        let mut i: usize = 0;
        while i < n
            invariant
                i <= n,
                self.enemies@.len() == n,
                self@ == old(self)@.onslaught(*input, retargets@, i as int),
                self.wf(),
            decreases n - i,
        {
            let retarget = if i < retargets.len() {
                retargets[i]
            } else {
                Retarget::keep()
            };
            self.advance_enemy(input, &retarget, i);
            i = i + 1;
        }
    }

    /// Removes what is spent or destroyed.
    fn prune(&mut self)
        ensures
            final(self)@ == old(self)@.pruned(),
            final(self)@.settled(),
            old(self).wf() ==> final(self).wf(),
    {
        proof {
            lemma_survivors(self.projectiles@);
            lemma_survivors(self.enemies@);
            lemma_survivors(self.hives@);
        }
        retain_alive(&mut self.projectiles);
        retain_alive(&mut self.enemies);
        retain_alive(&mut self.hives);
    }

    /// Decides whether the stage is lost or won.
    fn judge(&mut self)
        ensures
            final(self)@ == old(self)@.judged(),
            old(self).wf() ==> final(self).wf(),
            old(self)@.settled() ==> final(self)@.settled(),
    {
        if !self.player.is_alive() || self.hives.len() == 0 {
            self.state = GameState::Defeat;
        } else if self.enemies.len() == 0 && self.enemies_remaining == 0 {
            self.state = GameState::Victory;
        }
    }

    /// Advances a stage under way by one frame, given what chance decides
    /// in it.
    pub fn step(&mut self, input: &Input, spawn: Entrance, retargets: &Vec<Retarget>)
        requires
            old(self).wf(),
        ensures
            final(self)@ == old(self)@.advanced(*input, spawn, retargets@),
            final(self).wf(),
            final(self)@.settled(),
    {
        self.handle_input(input);
        self.player.tick(input.now);
        self.reinforce(input, spawn);
        self.volley(input);
        self.onslaught(input, retargets);
        self.prune();
        self.judge();
    }

    /// Advances the world by one frame, given what chance decides in it.
    pub fn tick_with(&mut self, input: &Input, chance: Chance)
        requires
            old(self).wf(),
            chance.wf(),
            input.view.wf(),
        ensures
            final(self)@ == old(self)@.ticked(
                *input,
                chance.layout.terrain@,
                chance.layout.hives@,
                chance.spawn,
                chance.retargets@,
            ),
            final(self).wf(),
    {
        match self.state {
            GameState::Running => {
                self.step(input, chance.spawn, &chance.retargets);
            },
            GameState::Victory => {
                if input.confirm {
                    self.count_stage();
                    self.install(chance.layout, &input.view);
                }
            },
            GameState::Defeat => {
                if input.confirm {
                    self.stage = 0;
                    self.hives_saved = 0;
                    self.install(chance.layout, &input.view);
                }
            },
        }
    }

    /// Asks the random source for all that chance decides in one frame: the
    /// layout where a stage begins, and else the entrance of an adversary,
    /// where one is due, and what each adversary does about its target.
    pub fn chance(&self, input: &Input) -> (chance: Chance)
        requires
            self.wf(),
            input.view.wf(),
        ensures
            chance.possible(self@, *input),
            chance.wf(),
    {
        let mut chance = Chance::none();
        match self.state {
            GameState::Running => {
                if self.enemies.len() < self.max_enemies() && self.enemies_remaining > 0 {
                    chance.spawn = Entrance::random(&input.view);
                }
                let mut retargets: Vec<Retarget> = Vec::new();
                let mut i: usize = 0;
                while i < self.enemies.len()
                    invariant
                        forall|k: int| 0 <= k < self.hives@.len() ==> (#[trigger] self.hives@[k]).wf(),
                        i <= self.enemies@.len(),
                        retargets@.len() == i,
                        forall|k: int|
                            0 <= k < retargets@.len() ==> (#[trigger] retargets@[k]).possible(
                                self.hives@,
                            ),
                    decreases self.enemies@.len() - i,
                {
                    retargets.push(Retarget::random(self.enemies[i].target.is_some(), &self.hives));
                    i = i + 1;
                }
                retargets.push(Retarget::random(false, &self.hives));
                chance.retargets = retargets;
            },
            GameState::Victory => {
                if input.confirm {
                    let stage: usize = if self.stage < MAX_STAGE {
                        self.stage + 1
                    } else {
                        self.stage
                    };
                    chance.layout = Layout::random(stage, &input.view);
                }
            },
            GameState::Defeat => {
                if input.confirm {
                    chance.layout = Layout::random(0, &input.view);
                }
            },
        }
        chance
    }

    /// Advances the world by one frame.
    ///
    /// A stage under way advances as [`Scene::advanced`] says; a stage that
    /// is won or lost waits for the confirm key and is then followed by the
    /// next stage, or by the first. What chance decides comes from the
    /// random source, so the result is stated for some chance of the kind
    /// that the source can give.
    pub fn tick(&mut self, input: &Input)
        requires
            old(self).wf(),
            input.view.wf(),
        ensures
            exists|chance: Chance| #[trigger]
                chance.possible(old(self)@, *input) && final(self)@ == old(self)@.ticked(
                    *input,
                    chance.layout.terrain@,
                    chance.layout.hives@,
                    chance.spawn,
                    chance.retargets@,
                ),
            final(self).wf(),
    {
        let chance = self.chance(input);
        let ghost made = chance;
        self.tick_with(input, chance);
        assert(made.possible(old(self)@, *input));
    }
}

} // verus!
