//! What holds of every frame: laws of the simulation, proved of the model
//! in [`crate::scene`].

use vstd::prelude::*;
use crate::actor::{confinement, lemma_confinement, Actor, Mobile};
use crate::collide::{lemma_first_overlap, lemma_survivors, slide_along, survivors};
use crate::enemy::{Enemy, Entrance, Retarget, IMMOBILE_VOID_TIME_MS};
use crate::geometry::Viewport;
use crate::input::Input;
use crate::player::{immunity_end, Player, PlayerState, INVULNERABLE_MS};
use crate::scene::{retarget_for, GameState, Scene};
use crate::stage::{enemy_cap, enemy_speed, spawn_budget, MAX_STAGE};
use crate::terrain::{Hive, Terrain};
use crate::units::Millis;

verus! {

/// A projectile wounds at most one adversary in a frame.
///
/// Whatever the frame of the projectile with index `j` changes about an
/// adversary, it changes about one only: the first in the list whose box
/// overlaps the projectile after its flight. That adversary takes the
/// projectile's damage once, and the projectile is spent. Every adversary
/// later in the list is left as it was, whether it overlaps or not.
pub proof fn lemma_projectile_wounds_once(scene: Scene, input: Input, j: int)
    requires
        0 <= j < scene.projectiles.len(),
    ensures
        ({
            let flown = scene.projectiles[j].ticked(input.now);
            let after = scene.shot(input, j);
            &&& after.enemies.len() == scene.enemies.len()
            &&& after.projectiles.len() == scene.projectiles.len()
            &&& forall|i: int|
                0 <= i < scene.enemies.len() && #[trigger] after.enemies[i] != scene.enemies[i] ==> {
                    &&& flown.active
                    &&& scene.enemies[i].bounds().overlaps(flown.bounds())
                    &&& after.enemies[i] == scene.enemies[i].wounded(flown.damage)
                    &&& !after.projectiles[j].active
                    &&& forall|k: int|
                        0 <= k < scene.enemies.len() && k != i ==> #[trigger] after.enemies[k]
                            == scene.enemies[k]
                    &&& forall|k: int|
                        0 <= k < i ==> !(#[trigger] scene.enemies[k]).bounds().overlaps(
                            flown.bounds(),
                        )
                }
            &&& forall|i: int|
                0 <= i < scene.enemies.len() && flown.active && (#[trigger] scene.enemies[i]).bounds().overlaps(
                    flown.bounds(),
                ) ==> !after.projectiles[j].active
        }),
{
    let flown = scene.projectiles[j].ticked(input.now);
    lemma_first_overlap(scene.enemies, flown.bounds(), 0);
}

/// A projectile that is spent does not outlast the frame.
pub proof fn lemma_spent_projectile_is_removed(scene: Scene)
    ensures
        forall|i: int|
            0 <= i < scene.pruned().projectiles.len() ==> (#[trigger] scene.pruned().projectiles[i]).active,
{
    lemma_survivors(scene.projectiles);
}

/// The window of immunity.
///
/// A player in the normal state that is touched at `hit_at` loses one hit
/// point and is immune until the clock has passed `hit_at` and
/// [`INVULNERABLE_MS`] more. Up to and including that moment its own tick
/// leaves it immune and a touch leaves it as it is; once the clock has
/// passed it, its tick makes it normal again and the next touch costs a hit
/// point.
pub proof fn lemma_invulnerability_window(player: Player, hit_at: Millis, now: Millis)
    requires
        player.state == PlayerState::Normal,
        player.hp > 0,
        hit_at + INVULNERABLE_MS <= u64::MAX,
    ensures
        ({
            let hurt = player.touched(hit_at);
            &&& hurt.hp == player.hp - 1
            &&& hurt.state == PlayerState::Invulnerable((hit_at + INVULNERABLE_MS) as u64)
            &&& now <= hit_at + INVULNERABLE_MS ==> hurt.ticked(now).touched(now) == hurt
            &&& now > hit_at + INVULNERABLE_MS ==> hurt.ticked(now).state == PlayerState::Normal
            &&& now > hit_at + INVULNERABLE_MS && hurt.hp > 0 ==> hurt.ticked(now).touched(now).hp
                == hurt.hp - 1
        }),
{
}

/// What the frames of the projectiles leave alone: everything but the
/// projectiles and the adversaries, and the lengths of those two lists.
pub proof fn lemma_volley_frame(scene: Scene, input: Input, n: int)
    requires
        n <= scene.projectiles.len(),
    ensures
        ({
            let after = scene.volley(input, n);
            &&& after.projectiles.len() == scene.projectiles.len()
            &&& after.enemies.len() == scene.enemies.len()
            &&& after == (Scene { projectiles: after.projectiles, enemies: after.enemies, ..scene })
        }),
    decreases n,
{
    if n > 0 {
        lemma_volley_frame(scene, input, n - 1);
        let before = scene.volley(input, n - 1);
        lemma_first_overlap(before.enemies, before.projectiles[n - 1].ticked(input.now).bounds(), 0);
    }
}

/// What the frames of the adversaries leave alone: everything but the
/// adversaries, the hives and the player, and the lengths of the two lists.
pub proof fn lemma_onslaught_frame(scene: Scene, input: Input, retargets: Seq<Retarget>, n: int)
    requires
        n <= scene.enemies.len(),
    ensures
        ({
            let after = scene.onslaught(input, retargets, n);
            &&& after.enemies.len() == scene.enemies.len()
            &&& after.hives.len() == scene.hives.len()
            &&& after == (Scene {
                enemies: after.enemies,
                hives: after.hives,
                player: after.player,
                ..scene
            })
        }),
    decreases n,
{
    if n > 0 {
        lemma_onslaught_frame(scene, input, retargets, n - 1);
        let before = scene.onslaught(input, retargets, n - 1);
        let after = before.charged(input, retarget_for(retargets, n - 1), n - 1);
        lemma_first_overlap(before.hives, after.enemies[n - 1].bounds(), 0);
    }
}

/// Adversaries do not hurt an immune player: through their frames it
/// stays as it is.
pub proof fn lemma_onslaught_spares_immune(
    scene: Scene,
    input: Input,
    retargets: Seq<Retarget>,
    n: int,
)
    requires
        scene.player.state is Invulnerable,
    ensures
        scene.onslaught(input, retargets, n).player == scene.player,
    decreases n,
{
    if n > 0 {
        lemma_onslaught_spares_immune(scene, input, retargets, n - 1);
    }
}

/// Adversaries take at most one hit point from the player in a frame, and
/// none without making it immune.
pub proof fn lemma_onslaught_hurts_once(scene: Scene, input: Input, retargets: Seq<Retarget>, n: int)
    ensures
        ({
            let after = scene.onslaught(input, retargets, n).player;
            ||| after == scene.player
            ||| after == scene.player.touched(input.now) && scene.player.state == PlayerState::Normal
        }),
    decreases n,
{
    if n > 0 {
        lemma_onslaught_hurts_once(scene, input, retargets, n - 1);
    }
}

/// A player that is immune at the start of a frame, and whose immunity the
/// clock has not passed, comes out of the frame with the hit points and the
/// immunity that it went in with.
pub proof fn lemma_no_damage_within_window(
    scene: Scene,
    input: Input,
    spawn: Entrance,
    retargets: Seq<Retarget>,
    until: Millis,
)
    requires
        scene.player.state == PlayerState::Invulnerable(until),
        input.now <= until,
    ensures
        scene.advanced(input, spawn, retargets).player.hp == scene.player.hp,
        scene.advanced(input, spawn, retargets).player.state == scene.player.state,
{
    let ready = scene.steered(input).fired(input).recovered(input).reinforced(input, spawn);
    assert(ready.player.state == scene.player.state && ready.player.hp == scene.player.hp);
    lemma_volley_frame(ready, input, ready.projectiles.len() as int);
    let fought = ready.volley(input, ready.projectiles.len() as int);
    lemma_onslaught_spares_immune(fought, input, retargets, fought.enemies.len() as int);
}

/// A frame costs the player at most one hit point, and only where it
/// leaves the player immune for the time that follows.
pub proof fn lemma_frame_hurts_once(
    scene: Scene,
    input: Input,
    spawn: Entrance,
    retargets: Seq<Retarget>,
)
    requires
        scene.player.wf(),
    ensures
        ({
            let after = scene.advanced(input, spawn, retargets).player;
            &&& scene.player.hp - 1 <= after.hp <= scene.player.hp
            &&& after.hp < scene.player.hp ==> after.state == PlayerState::Invulnerable(
                immunity_end(input.now),
            )
        }),
{
    let ready = scene.steered(input).fired(input).recovered(input).reinforced(input, spawn);
    assert(ready.player.hp == scene.player.hp);
    lemma_volley_frame(ready, input, ready.projectiles.len() as int);
    let fought = ready.volley(input, ready.projectiles.len() as int);
    lemma_onslaught_hurts_once(fought, input, retargets, fought.enemies.len() as int);
}

/// Confirming a victory begins the next stage: the stage index grows by
/// one, the hives that stand are added to the tally, and the adversaries
/// of the new stage are faster and more numerous, in all and at once.
pub proof fn lemma_victory_confirmed(
    scene: Scene,
    input: Input,
    terrain: Seq<Terrain>,
    hives: Seq<Hive>,
    spawn: Entrance,
    retargets: Seq<Retarget>,
)
    requires
        scene.state == GameState::Victory,
        input.confirm,
        scene.stage < MAX_STAGE,
        scene.hives_saved + scene.hives.len() <= usize::MAX,
    ensures
        ({
            let next = scene.ticked(input, terrain, hives, spawn, retargets);
            &&& next.state == GameState::Running
            &&& next.stage == scene.stage + 1
            &&& next.hives_saved == scene.hives_saved + scene.hives.len()
            &&& next.enemies_remaining == spawn_budget(next.stage)
            &&& spawn_budget(next.stage) > spawn_budget(scene.stage)
            &&& enemy_speed(next.stage) > enemy_speed(scene.stage)
            &&& enemy_cap(next.stage) > enemy_cap(scene.stage)
            &&& next.player == Player::fresh(input.view)
            &&& next.projectiles.len() == 0
            &&& next.enemies.len() == 0
            &&& next.terrain == terrain
            &&& next.hives == hives
        }),
{
}

/// Confirming a defeat begins the first stage anew with a tally of zero.
pub proof fn lemma_defeat_confirmed(
    scene: Scene,
    input: Input,
    terrain: Seq<Terrain>,
    hives: Seq<Hive>,
    spawn: Entrance,
    retargets: Seq<Retarget>,
)
    requires
        scene.state == GameState::Defeat,
        input.confirm,
    ensures
        scene.ticked(input, terrain, hives, spawn, retargets) == Scene::staged(
            0,
            0,
            terrain,
            hives,
            input.view,
        ),
{
}

/// A stage that is won or lost stays as it is until the confirm key is
/// pressed.
pub proof fn lemma_finished_stage_waits(
    scene: Scene,
    input: Input,
    terrain: Seq<Terrain>,
    hives: Seq<Hive>,
    spawn: Entrance,
    retargets: Seq<Retarget>,
)
    requires
        scene.state != GameState::Running,
        !input.confirm,
    ensures
        scene.ticked(input, terrain, hives, spawn, retargets) == scene,
{
}

/// How a frame of a stage under way ends.
///
/// The stage is lost exactly where, once the spent and the destroyed are
/// removed, the player has no hit point or no hive is left, however many
/// adversaries are about or to come. Else it is won exactly where no
/// adversary is left and none is to come. Else it goes on.
pub proof fn lemma_judgement(scene: Scene)
    requires
        scene.state == GameState::Running,
    ensures
        ({
            let last = scene.pruned();
            let lost = last.player.hp <= 0 || last.hives.len() == 0;
            let won = !lost && last.enemies.len() == 0 && last.enemies_remaining == 0;
            &&& last.judged().state == GameState::Defeat <==> lost
            &&& last.judged().state == GameState::Victory <==> won
            &&& last.judged().state == GameState::Running <==> !lost && !won
            &&& last.judged() == (Scene { state: last.judged().state, ..last })
        }),
{
}

/// Hives that have no hit point left at the end of a frame are removed,
/// and where that leaves none the stage is lost.
pub proof fn lemma_no_hive_left_is_defeat(scene: Scene)
    requires
        forall|i: int| 0 <= i < scene.hives.len() ==> (#[trigger] scene.hives[i]).hp <= 0,
    ensures
        scene.pruned().hives.len() == 0,
        scene.pruned().judged().state == GameState::Defeat,
{
    lemma_survivors(scene.hives);
    if survivors(scene.hives).len() > 0 {
        let h = survivors(scene.hives)[0];
        assert(scene.hives.contains(h));
    }
}

/// An adversary that is pinned is removed.
///
/// Where the displacement that is left to an adversary, once the terrain
/// has corrected it, is too small to count as a move, and the adversary has
/// stood where it stands for the void time or longer, its frame leaves it
/// without a hit point, and it does not outlast the frame.
pub proof fn lemma_pinned_adversary_is_destroyed(
    scene: Scene,
    input: Input,
    retarget: Retarget,
    i: int,
)
    requires
        0 <= i < scene.enemies.len(),
        scene.enemies[i].last_position.x == scene.enemies[i].x,
        scene.enemies[i].last_position.y == scene.enemies[i].y,
        input.now - scene.enemies[i].last_position.at >= IMMOBILE_VOID_TIME_MS,
        !Enemy::counts_as_move(
            slide_along(
                scene.enemies[i].aimed(retarget).bounds(),
                scene.enemies[i].aimed(retarget).pull(),
                scene.terrain,
                scene.terrain.len() as int,
            ),
        ),
    ensures
        scene.charged(input, retarget, i).enemies[i].hp == 0,
        !scene.charged(input, retarget, i).enemies[i].alive(),
{
}

/// The player ends its move inside the playfield.
///
/// A player that fits into the playfield lies within it after the
/// confining translation, wherever its move has taken it, short of the far
/// end of the coordinate range.
pub proof fn lemma_player_confined(player: Player, view: Viewport, now: Millis)
    requires
        player.radius > 0,
        2 * player.radius <= view.width,
        2 * player.radius <= view.height,
        player.x - player.radius >= -i32::MAX,
        player.y - player.radius >= -i32::MAX,
    ensures
        player.moved(confinement(player.bounds(), view), now).bounds().within(view),
        player.bounds().within(view) ==> player.moved(confinement(player.bounds(), view), now)
            == player,
{
    lemma_confinement(player.bounds(), view);
}

/// Fire requests beyond the cap are dropped: firing never takes the
/// number of projectiles in flight above the player's limit, and does
/// nothing where the limit is reached.
pub proof fn lemma_fire_respects_cap(scene: Scene, input: Input)
    ensures
        scene.fired(input).projectiles.len() >= scene.projectiles.len(),
        scene.projectiles.len() <= scene.player.max_projectiles ==> scene.fired(
            input,
        ).projectiles.len() <= scene.player.max_projectiles,
        scene.projectiles.len() >= scene.player.max_projectiles ==> scene.fired(input) == scene,
{
}

/// Adversaries enter one at a time, each at the cost of one from the
/// stage's budget, and none where the stage's cap is reached or its budget
/// spent.
pub proof fn lemma_spawn_respects_cap(scene: Scene, input: Input, spawn: Entrance)
    ensures
        ({
            let after = scene.reinforced(input, spawn);
            &&& after.enemies.len() + after.enemies_remaining == scene.enemies.len()
                + scene.enemies_remaining
            &&& scene.enemies.len() <= after.enemies.len() <= scene.enemies.len() + 1
            &&& scene.enemies.len() <= enemy_cap(scene.stage) ==> after.enemies.len() <= enemy_cap(
                scene.stage,
            )
            &&& (scene.enemies.len() >= enemy_cap(scene.stage) || scene.enemies_remaining == 0)
                ==> after == scene
        }),
{
}

/// A frame of a stage under way keeps the lists within their caps, and
/// sends no adversary that the budget does not pay for.
pub proof fn lemma_frame_respects_caps(
    scene: Scene,
    input: Input,
    spawn: Entrance,
    retargets: Seq<Retarget>,
)
    requires
        scene.projectiles.len() <= scene.player.max_projectiles,
        scene.enemies.len() <= enemy_cap(scene.stage),
    ensures
        ({
            let after = scene.advanced(input, spawn, retargets);
            &&& after.projectiles.len() <= after.player.max_projectiles
            &&& after.enemies.len() <= enemy_cap(after.stage)
            &&& after.enemies_remaining <= scene.enemies_remaining
            &&& after.enemies.len() + after.enemies_remaining <= scene.enemies.len()
                + scene.enemies_remaining
            &&& after.stage == scene.stage
            &&& after.hives_saved == scene.hives_saved
            &&& after.terrain == scene.terrain
            &&& after.hives.len() <= scene.hives.len()
        }),
{
    let armed = scene.steered(input).fired(input);
    lemma_fire_respects_cap(scene.steered(input), input);
    let ready = armed.recovered(input).reinforced(input, spawn);
    lemma_spawn_respects_cap(armed.recovered(input), input, spawn);
    lemma_volley_frame(ready, input, ready.projectiles.len() as int);
    let fought = ready.volley(input, ready.projectiles.len() as int);
    lemma_onslaught_frame(fought, input, retargets, fought.enemies.len() as int);
    let spent = fought.onslaught(input, retargets, fought.enemies.len() as int);
    lemma_onslaught_hurts_once(fought, input, retargets, fought.enemies.len() as int);
    lemma_survivors(spent.projectiles);
    lemma_survivors(spent.enemies);
    lemma_survivors(spent.hives);
}

/// The frames of the projectiles keep the scene well formed.
pub proof fn lemma_volley_keeps_wf(scene: Scene, input: Input, n: int)
    requires
        scene.wf(),
        n <= scene.projectiles.len(),
    ensures
        scene.volley(input, n).wf(),
    decreases n,
{
    if n > 0 {
        lemma_volley_keeps_wf(scene, input, n - 1);
        lemma_volley_frame(scene, input, n - 1);
        let before = scene.volley(input, n - 1);
        let flown = before.projectiles[n - 1].ticked(input.now);
        lemma_first_overlap(before.enemies, flown.bounds(), 0);
        let after = before.shot(input, n - 1);
        assert forall|i: int| 0 <= i < after.enemies.len() implies (#[trigger] after.enemies[i]).wf() by {
            assert(before.enemies[i].wf());
        }
    }
}

/// The frames of the adversaries keep the scene well formed.
pub proof fn lemma_onslaught_keeps_wf(scene: Scene, input: Input, retargets: Seq<Retarget>, n: int)
    requires
        scene.wf(),
        n <= scene.enemies.len(),
    ensures
        scene.onslaught(input, retargets, n).wf(),
    decreases n,
{
    if n > 0 {
        lemma_onslaught_keeps_wf(scene, input, retargets, n - 1);
        lemma_onslaught_frame(scene, input, retargets, n - 1);
        let before = scene.onslaught(input, retargets, n - 1);
        let after = before.charged(input, retarget_for(retargets, n - 1), n - 1);
        assert(before.enemies[n - 1].wf());
        lemma_first_overlap(before.hives, after.enemies[n - 1].bounds(), 0);
        assert forall|i: int| 0 <= i < after.enemies.len() implies (#[trigger] after.enemies[i]).wf() by {
            assert(before.enemies[i].wf());
        }
        assert forall|i: int| 0 <= i < after.hives.len() implies (#[trigger] after.hives[i]).wf() by {
            assert(before.hives[i].wf());
        }
    }
}

/// Every frame keeps the scene well formed: the hit points of the player
/// and of each hive stay between none and their most, those of each
/// adversary do not fall below none, and no extent or speed changes sign.
/// After a frame of a stage under way nothing is left that awaits removal.
pub proof fn lemma_frame_keeps_wf(
    scene: Scene,
    input: Input,
    spawn: Entrance,
    retargets: Seq<Retarget>,
)
    requires
        scene.wf(),
    ensures
        scene.advanced(input, spawn, retargets).wf(),
        scene.advanced(input, spawn, retargets).settled(),
{
    let ready = scene.steered(input).fired(input).recovered(input).reinforced(input, spawn);
    assert(ready.wf()) by {
        assert forall|i: int| 0 <= i < ready.enemies.len() implies (#[trigger] ready.enemies[i]).wf() by {
            if i < scene.enemies.len() {
                assert(scene.enemies[i].wf());
            }
        }
    }
    lemma_volley_keeps_wf(ready, input, ready.projectiles.len() as int);
    let fought = ready.volley(input, ready.projectiles.len() as int);
    lemma_onslaught_keeps_wf(fought, input, retargets, fought.enemies.len() as int);
    let spent = fought.onslaught(input, retargets, fought.enemies.len() as int);
    lemma_survivors(spent.projectiles);
    lemma_survivors(spent.enemies);
    lemma_survivors(spent.hives);
    let last = spent.pruned();
    assert forall|i: int| 0 <= i < last.enemies.len() implies (#[trigger] last.enemies[i]).wf() by {
        let k = choose|k: int| 0 <= k < spent.enemies.len() && spent.enemies[k] == last.enemies[i];
        assert(spent.enemies[k].wf());
    }
    assert forall|i: int| 0 <= i < last.hives.len() implies (#[trigger] last.hives[i]).wf() by {
        let k = choose|k: int| 0 <= k < spent.hives.len() && spent.hives[k] == last.hives[i];
        assert(spent.hives[k].wf());
    }
}

} // verus!
