//! The wave controller: it owns the player, the enemies and the
//! projectiles, and runs the tick.

use vstd::prelude::*;
use rand::rngs::ThreadRng;
use crate::enemy::{Butter, Enemy, BUTTER_SPEED, MARGIN};
use crate::player::{Input, Player, PLAYER_HEALTH, PLAYER_SIZE, START};
use crate::random::{below, thread_rng};
use crate::vectors::{saturated, saturating_difference, Vec2, ARENA};
use crate::waves::{enemies_to_spawn, enemies_to_spawn_bounds, get_enemies_to_spawn, get_spawn_timer, spawn_interval, MAX_WAVE};

verus! {

/// The spawn timer at the start of a wave: below zero, so that the first
/// enemy comes at once.
pub const WAVE_START_TIMER: i64 = -1000;

/// More enemies than the wave's number and this many are never alive at
/// once.
pub const CROWD: u32 = 2;

/// Where an enemy appears: [`MARGIN`] outside the arena on the side
/// `side` (0 left, 1 right, 2 top, 3 bottom), `offset` along that side.
pub open spec fn spawn_point(side: u32, offset: i64) -> Vec2 {
    if side == 0 {
        Vec2 { x: (-MARGIN) as i64, y: offset }
    } else if side == 1 {
        Vec2 { x: (ARENA + MARGIN) as i64, y: offset }
    } else if side == 2 {
        Vec2 { x: offset, y: (-MARGIN) as i64 }
    } else {
        Vec2 { x: offset, y: (ARENA + MARGIN) as i64 }
    }
}

/// A projectile stays in the game: it has not hit, and lies in the arena.
pub open spec fn butter_stays(b: Butter) -> bool {
    b.valid && b.pos.inside_arena()
}

/// The projectiles of `butters` that stay in the game, in their order.
pub open spec fn staying_butters(butters: Seq<Butter>) -> Seq<Butter> {
    butters.filter(|b: Butter| butter_stays(b))
}

/// The enemies of `enemies` that stay in the game, those that are valid,
/// in their order.
pub open spec fn staying_enemies(enemies: Seq<Enemy>) -> Seq<Enemy> {
    enemies.filter(|e: Enemy| e.valid)
}

/// What one tick makes of the projectiles, of the player and of the
/// enemies: each projectile in turn moves and hits as
/// [`Butter::flown`] says, the later ones meeting what the earlier ones
/// have left.
pub open spec fn volley(butters: Seq<Butter>, dt: u32, player: Player, enemies: Seq<Enemy>) -> (
    Seq<Butter>,
    Player,
    Seq<Enemy>,
)
    decreases butters.len(),
{
    if butters.len() == 0 {
        (butters, player, enemies)
    } else {
        let before = volley(butters.drop_last(), dt, player, enemies);
        let last = butters.last().flown(dt, before.1, before.2);
        (before.0.push(last.0), last.1, last.2)
    }
}

/// The enemies of `enemies`, each with the nearest way out of the arena
/// as its target.
pub open spec fn turned_away(enemies: Seq<Enemy>) -> Seq<Enemy> {
    Seq::new(
        enemies.len(),
        |i: int| (Enemy { target_pos: Enemy::escape_point(enemies[i].pos), ..enemies[i] }),
    )
}

/// Some enemy of `enemies` threw `b` from its centre at `center`.
pub open spec fn thrown_by(b: Butter, enemies: Seq<Enemy>, center: Vec2) -> bool {
    exists|k: int| 0 <= k < enemies.len() && b == Butter::launched((#[trigger] enemies[k]).center(), center)
}

/// The game: one player, the enemies and projectiles that are about, and
/// the count of waves and kills.
pub struct Level {
    pub player: Player,
    pub enemies: Vec<Enemy>,
    pub butters: Vec<Butter>,
    /// The running wave; the first is wave 1.
    pub wave_number: u32,
    /// How many enemies of the running wave have appeared.
    pub enemies_spawned: u32,
    /// Milliseconds until the next enemy may appear.
    pub spawn_timer: i64,
    pub random: ThreadRng,
    /// How many enemies have left the game.
    pub total_kills: u32,
}

impl Level {
    /// Player, enemies and projectiles are well formed; the wave has a
    /// number whose size can be computed, and no more enemies have
    /// appeared than it brings.
    pub open spec fn sound(&self) -> bool {
        &&& self.player.wf()
        &&& forall|i: int| 0 <= i < self.enemies.len() ==> (#[trigger] self.enemies[i]).wf()
        &&& forall|i: int| 0 <= i < self.butters.len() ==> (#[trigger] self.butters[i]).wf()
        &&& 1 <= self.wave_number <= MAX_WAVE
        &&& self.enemies_spawned <= enemies_to_spawn(self.wave_number as int)
    }

    /// The game is sound, and is one that play leads to: no more enemies
    /// are about than the wave lets be about at once, and the player's cap
    /// is no higher than the waves so far can have raised it.
    pub open spec fn wf(&self) -> bool {
        &&& self.sound()
        &&& self.enemies.len() <= self.wave_number + CROWD
        &&& self.player.max_hp <= self.wave_number + CROWD
    }

    /// A tick can count what it has to count: the next wave has a number
    /// whose size can be computed, and the kills of this tick fit the
    /// counter.
    pub open spec fn has_headroom(&self) -> bool {
        &&& self.wave_number < MAX_WAVE
        &&& self.total_kills + self.enemies.len() + 1 <= u32::MAX
    }

    /// An enemy appears when the timer stands at `timer`: the wave has
    /// more to bring, the timer has run out, and the arena is not crowded.
    pub open spec fn spawn_due(&self, timer: int) -> bool {
        &&& self.enemies_spawned < enemies_to_spawn(self.wave_number as int)
        &&& timer <= 0
        &&& self.enemies.len() < self.wave_number + CROWD
    }

    /// The wave is over: all its enemies have appeared, and none is left.
    pub open spec fn wave_over(&self) -> bool {
        &&& self.enemies_spawned == enemies_to_spawn(self.wave_number as int)
        &&& self.enemies.len() == 0
    }

    /// What the spawner makes of the game after `dt` milliseconds,
    /// whatever the draws give: the timer runs down; when an enemy is due
    /// it appears, fresh, at a spawn point at the end of the roster, the
    /// timer is set to the wave's interval and the enemy is counted.
    pub open spec fn spawned(pre: Level, post: Level, dt: u32) -> bool {
        let timer = saturated(pre.spawn_timer - dt);
        &&& post.player == pre.player
        &&& post.butters == pre.butters
        &&& post.wave_number == pre.wave_number
        &&& post.total_kills == pre.total_kills
        &&& if pre.spawn_due(timer) {
            &&& post.enemies.len() == pre.enemies.len() + 1
            &&& post.enemies@.drop_last() == pre.enemies@
            &&& exists|side: u32, offset: i64|
                side < 4 && 0 <= offset < ARENA && #[trigger] post.enemies@.last().fresh_at(
                    spawn_point(side, offset),
                )
            &&& post.enemies_spawned == pre.enemies_spawned + 1
            &&& post.spawn_timer == spawn_interval(pre.wave_number as int)
        } else {
            &&& post.enemies == pre.enemies
            &&& post.enemies_spawned == pre.enemies_spawned
            &&& post.spawn_timer == timer
        }
    }

    /// The game at the start of the wave `wave`, before its first enemy
    /// appears: a player who comes from an earlier wave is rewarded.
    pub open spec fn wave_begun(self, wave: u32) -> Level {
        Level {
            player: if wave > self.wave_number { self.player.rewarded() } else { self.player },
            wave_number: wave,
            enemies_spawned: 0,
            spawn_timer: WAVE_START_TIMER,
            ..self
        }
    }

    /// What a restart makes of the game, whatever the draws give: the
    /// first wave with its first enemy, no projectiles, no kills, and the
    /// player healed and back at the start.
    pub open spec fn restarted(pre: Level, post: Level) -> bool {
        &&& post.player == (Player {
            hp: PLAYER_HEALTH,
            max_hp: PLAYER_HEALTH,
            pos: Vec2 { x: START, y: START },
            ..pre.player
        })
        &&& post.butters@ == Seq::<Butter>::empty()
        &&& post.wave_number == 1
        &&& post.total_kills == 0
        &&& post.enemies_spawned == 1
        &&& post.spawn_timer == spawn_interval(1)
        &&& post.enemies.len() == 1
        &&& exists|side: u32, offset: i64|
            side < 4 && 0 <= offset < ARENA && #[trigger] post.enemies[0].fresh_at(spawn_point(side, offset))
    }

    /// A new game: the player in the middle of the arena, the first wave,
    /// and nobody else yet.
    pub fn new() -> (level: Level)
        ensures
            level.wf(),
            level.has_headroom(),
            level.player.pos == (Vec2 { x: START, y: START }),
            level.player.hp == PLAYER_HEALTH,
            level.player.max_hp == PLAYER_HEALTH,
            level.enemies.len() == 0,
            level.butters.len() == 0,
            level.wave_number == 1,
            level.enemies_spawned == 0,
            level.spawn_timer == 0,
            level.total_kills == 0,
    {
        proof {
            enemies_to_spawn_bounds(1);
        }
        Level {
            player: Player::new(Vec2 { x: START, y: START }),
            enemies: Vec::new(),
            butters: Vec::new(),
            wave_number: 1,
            enemies_spawned: 0,
            spawn_timer: 0,
            random: thread_rng(),
            total_kills: 0,
        }
    }

    /// Lets a fresh enemy appear on the side `side`, `offset` along it,
    /// counts it, and sets the timer to the wave's interval.
    pub fn place_enemy(&mut self, side: u32, offset: i64)
        requires
            old(self).sound(),
            side < 4,
            0 <= offset < ARENA,
            old(self).enemies_spawned < enemies_to_spawn(old(self).wave_number as int),
            old(self).enemies.len() < old(self).wave_number + CROWD,
        ensures
            final(self).sound(),
            old(self).wf() ==> final(self).wf(),
            final(self).enemies.len() == old(self).enemies.len() + 1,
            final(self).enemies@.drop_last() == old(self).enemies@,
            final(self).enemies@.last().fresh_at(spawn_point(side, offset)),
            final(self).enemies_spawned == old(self).enemies_spawned + 1,
            final(self).spawn_timer == spawn_interval(old(self).wave_number as int),
            final(self).player == old(self).player,
            final(self).butters == old(self).butters,
            final(self).wave_number == old(self).wave_number,
            final(self).total_kills == old(self).total_kills,
    {
        let pos = if side == 0 {
            Vec2 { x: -MARGIN, y: offset }
        } else if side == 1 {
            Vec2 { x: ARENA + MARGIN, y: offset }
        } else if side == 2 {
            Vec2 { x: offset, y: -MARGIN }
        } else {
            Vec2 { x: offset, y: ARENA + MARGIN }
        };
        proof {
            enemies_to_spawn_bounds(self.wave_number as int);
        }
        self.enemies.push(Enemy::new(pos));
        self.spawn_timer = get_spawn_timer(self.wave_number);
        self.enemies_spawned += 1;
        assert(final(self).enemies@.drop_last() =~= old(self).enemies@);
    }

    /// Whether an enemy is due now.
    pub fn is_spawn_due(&self) -> (due: bool)
        requires
            self.sound(),
        ensures
            due == self.spawn_due(self.spawn_timer as int),
    {
        self.enemies_spawned < get_enemies_to_spawn(self.wave_number) && self.spawn_timer <= 0
            && self.enemies.len() < self.wave_number as usize + CROWD as usize
    }

    /// The spawner: lets `dt` milliseconds run off the timer, and lets an
    /// enemy appear if one is due, on a side and at an offset drawn by
    /// chance.
    pub fn spawn_enemy(&mut self, dt: u32)
        requires
            old(self).sound(),
        ensures
            final(self).sound(),
            old(self).wf() ==> final(self).wf(),
            Level::spawned(*old(self), *final(self), dt),
    {
        self.spawn_timer = saturating_difference(self.spawn_timer, dt as i64);
        if self.is_spawn_due() {
            let side: u32 = below(&mut self.random, 4);
            let offset: i64 = below(&mut self.random, ARENA as u32) as i64;
            self.place_enemy(side, offset);
        }
    }

    /// Whether the wave is over: all its enemies have appeared, and none
    /// is left.
    pub fn is_wave_over(&self) -> (over: bool)
        requires
            self.sound(),
        ensures
            over == self.wave_over(),
    {
        self.enemies_spawned == get_enemies_to_spawn(self.wave_number) && self.enemies.len() == 0
    }

    /// Begins the wave `wave`: a player who comes from an earlier wave is
    /// rewarded, the count of appeared enemies starts over, and the
    /// spawner runs once at once.
    ///
    /// Any wave whose size fits the counter can begin, a later or an
    /// earlier one. The game stays sound. It is well formed after the call
    /// where the wave has room for who is there; going on to the next wave
    /// of a well-formed game always leaves it so, and so does going back
    /// once the enemies are cleared and the player is reset, as a restart
    /// does.
    pub fn set_wave(&mut self, wave: u32)
        requires
            old(self).sound(),
            1 <= wave <= MAX_WAVE,
            wave > old(self).wave_number ==> old(self).player.hp < u32::MAX,
        ensures
            final(self).sound(),
            Level::spawned(old(self).wave_begun(wave), *final(self), 0),
            old(self).wf() && wave == old(self).wave_number + 1 && old(self).enemies.len() == 0
                ==> final(self).wf(),
    {
        if wave > self.wave_number {
            self.player.end_wave();
        }
        self.wave_number = wave;
        self.enemies_spawned = 0;
        self.spawn_timer = WAVE_START_TIMER;
        proof {
            enemies_to_spawn_bounds(wave as int);
        }
        self.spawn_enemy(0);
    }

    /// Starts the game over: nobody is about, the first wave begins, the
    /// kills are forgotten, and the player is healed and back at the
    /// start.
    pub fn restart(&mut self)
        requires
            old(self).wf(),
        ensures
            final(self).wf(),
            final(self).has_headroom(),
            Level::restarted(*old(self), *final(self)),
    {
        self.butters = Vec::new();
        self.enemies = Vec::new();
        self.player.restart();
        self.set_wave(1);
        self.total_kills = 0;
    }

    /// All of [`Level::wf`] but that the projectiles are in range.
    pub open spec fn settled(&self) -> bool {
        &&& self.player.wf()
        &&& forall|i: int| 0 <= i < self.enemies.len() ==> (#[trigger] self.enemies[i]).wf()
        &&& forall|i: int|
            0 <= i < self.butters.len() ==> (#[trigger] self.butters[i]).velocity.within(BUTTER_SPEED as int)
        &&& 1 <= self.wave_number <= MAX_WAVE
        &&& self.enemies_spawned <= enemies_to_spawn(self.wave_number as int)
        &&& self.enemies.len() <= self.wave_number + CROWD
        &&& self.player.max_hp <= self.wave_number + CROWD
    }

    /// What one tick of every living enemy makes of the game, whatever the
    /// clock reads and the draws give. Each enemy is moved as
    /// [`Enemy::moved`] says; the projectiles that were about stay as
    /// they are, and each enemy adds at most one, thrown from its centre
    /// at the player's.
    pub open spec fn enemies_acted(pre: Level, post: Level, dt: u32) -> bool {
        &&& post.enemies.len() == pre.enemies.len()
        &&& forall|i: int|
            0 <= i < pre.enemies.len() ==> Enemy::moved(
                pre.enemies[i],
                #[trigger] post.enemies[i],
                dt,
                pre.player.center(),
            )
        &&& pre.butters.len() <= post.butters.len() <= pre.butters.len() + pre.enemies.len()
        &&& post.butters@.take(pre.butters.len() as int) == pre.butters@
        &&& forall|j: int|
            pre.butters.len() <= j < post.butters.len() ==> thrown_by(
                #[trigger] post.butters[j],
                pre.enemies@,
                pre.player.center(),
            )
        &&& post.player == pre.player
        &&& post.wave_number == pre.wave_number
        &&& post.enemies_spawned == pre.enemies_spawned
        &&& post.spawn_timer == pre.spawn_timer
        &&& post.total_kills == pre.total_kills
    }

    /// What the player's tick makes of the game, whatever the clock
    /// reads: player and projectiles are as [`Player::updated`] says, and
    /// nothing else changes.
    pub open spec fn player_acted(pre: Level, post: Level, input: Input, dt: u32) -> bool {
        &&& Player::updated(pre.player, post.player, input, dt, pre.butters@, post.butters@)
        &&& post.enemies == pre.enemies
        &&& post.wave_number == pre.wave_number
        &&& post.enemies_spawned == pre.enemies_spawned
        &&& post.spawn_timer == pre.spawn_timer
        &&& post.total_kills == pre.total_kills
    }

    /// What the end of a tick makes of the game, once player and enemies
    /// have acted. Every projectile moves and hits; the projectiles that
    /// have hit or left the arena and the enemies that are no longer valid
    /// are removed, and the removed enemies are counted as kills; if the
    /// player is dead now, every enemy that is left turns to leave.
    pub open spec fn settled_from(pre: Level, post: Level, dt: u32) -> bool {
        let flown = volley(pre.butters@, dt, pre.player, pre.enemies@);
        let left = staying_enemies(flown.2);
        &&& post.player == flown.1
        &&& post.butters@ == staying_butters(flown.0)
        &&& post.enemies@ == (if flown.1.dead() { turned_away(left) } else { left })
        &&& post.total_kills == pre.total_kills + (flown.2.len() - left.len())
        &&& post.wave_number == pre.wave_number
        &&& post.enemies_spawned == pre.enemies_spawned
        &&& post.spawn_timer == pre.spawn_timer
    }

    /// How a tick closes, whatever the draws give: where the wave is over
    /// the next one begins, with its first enemy; else nothing changes.
    pub open spec fn closed(pre: Level, post: Level) -> bool {
        if pre.wave_over() {
            Level::spawned(pre.wave_begun((pre.wave_number + 1) as u32), post, 0)
        } else {
            &&& post.player == pre.player
            &&& post.enemies == pre.enemies
            &&& post.butters == pre.butters
            &&& post.wave_number == pre.wave_number
            &&& post.enemies_spawned == pre.enemies_spawned
            &&& post.spawn_timer == pre.spawn_timer
            &&& post.total_kills == pre.total_kills
        }
    }

    /// What one tick makes of the game while the player is alive, whatever
    /// the clock reads and the draws give. In this order: the spawner
    /// runs; the player acts; the enemies act; the projectiles fly, and
    /// the tick settles; the tick closes.
    pub open spec fn ticked(pre: Level, post: Level, input: Input, dt: u32) -> bool {
        exists|a: Level| #[trigger] Level::spawned(pre, a, dt) && Level::ticked_on(a, post, input, dt)
    }

    /// A tick from the player's turn on.
    pub open spec fn ticked_on(pre: Level, post: Level, input: Input, dt: u32) -> bool {
        exists|b: Level| #[trigger] Level::player_acted(pre, b, input, dt) && Level::marched_on(b, post, dt)
    }

    /// A tick from the enemies' turn on.
    pub open spec fn marched_on(pre: Level, post: Level, dt: u32) -> bool {
        exists|c: Level| #[trigger] Level::enemies_acted(pre, c, dt) && Level::flown_on(c, post, dt)
    }

    /// A tick from the projectiles' turn on.
    pub open spec fn flown_on(pre: Level, post: Level, dt: u32) -> bool {
        exists|m: Level| #[trigger] Level::settled_from(pre, m, dt) && Level::closed(m, post)
    }

    /// One tick of every living enemy, in the roster's order.
    pub fn update_enemies(&mut self, dt: u32)
        requires
            old(self).wf(),
        ensures
            final(self).wf(),
            Level::enemies_acted(*old(self), *final(self), dt),
    {
        let ghost center = self.player.center();
        let ghost before = self.butters.len() as int;
        let mut i: usize = 0;
        assert(self.butters@.take(before) =~= old(self).butters@);
        while i < self.enemies.len()
            invariant
                i <= self.enemies.len(),
                self.wf(),
                center == old(self).player.center(),
                before == old(self).butters.len(),
                self.enemies.len() == old(self).enemies.len(),
                forall|j: int|
                    0 <= j < i ==> Enemy::moved(old(self).enemies[j], #[trigger] self.enemies[j], dt, center),
                forall|j: int| i <= j < self.enemies.len() ==> #[trigger] self.enemies[j] == old(self).enemies[j],
                before <= self.butters.len() <= before + i,
                self.butters@.take(before) == old(self).butters@,
                forall|j: int|
                    before <= j < self.butters.len() ==> thrown_by(
                        #[trigger] self.butters[j],
                        old(self).enemies@,
                        center,
                    ),
                self.player == old(self).player,
                self.wave_number == old(self).wave_number,
                self.enemies_spawned == old(self).enemies_spawned,
                self.spawn_timer == old(self).spawn_timer,
                self.total_kills == old(self).total_kills,
            decreases self.enemies.len() - i,
        {
            let ghost butters_before = self.butters@;
            let mut e = self.enemies[i];
            e.update(dt, &self.player, &mut self.butters, &mut self.random);
            self.enemies.set(i, e);
            proof {
                assert(self.butters@.take(before) =~= old(self).butters@);
                assert(old(self).enemies@[i as int] == old(self).enemies[i as int]);
            }
            i += 1;
        }
    }

    /// One tick of every projectile, in the roster's order: each moves,
    /// then hits the player or the enemies.
    pub fn update_butters(&mut self, dt: u32)
        requires
            old(self).wf(),
        ensures
            final(self).settled(),
            (final(self).butters@, final(self).player, final(self).enemies@) == volley(
                old(self).butters@,
                dt,
                old(self).player,
                old(self).enemies@,
            ),
            final(self).butters.len() == old(self).butters.len(),
            final(self).enemies.len() == old(self).enemies.len(),
            final(self).wave_number == old(self).wave_number,
            final(self).enemies_spawned == old(self).enemies_spawned,
            final(self).spawn_timer == old(self).spawn_timer,
            final(self).total_kills == old(self).total_kills,
    {
        let mut i: usize = 0;
        assert(self.butters@.take(0) =~= Seq::<Butter>::empty());
        while i < self.butters.len()
            invariant
                i <= self.butters.len(),
                self.settled(),
                self.butters.len() == old(self).butters.len(),
                self.enemies.len() == old(self).enemies.len(),
                forall|j: int| i <= j < self.butters.len() ==> #[trigger] self.butters[j] == old(self).butters[j],
                forall|j: int| 0 <= j < old(self).butters.len() ==> (#[trigger] old(self).butters[j]).wf(),
                (self.butters@.take(i as int), self.player, self.enemies@) == volley(
                    old(self).butters@.take(i as int),
                    dt,
                    old(self).player,
                    old(self).enemies@,
                ),
                self.wave_number == old(self).wave_number,
                self.enemies_spawned == old(self).enemies_spawned,
                self.spawn_timer == old(self).spawn_timer,
                self.total_kills == old(self).total_kills,
            decreases self.butters.len() - i,
        {
            let ghost flown_before = self.butters@.take(i as int);
            let mut b = self.butters[i];
            b.update(dt, &mut self.player, &mut self.enemies);
            self.butters.set(i, b);
            proof {
                let upto = old(self).butters@.take(i + 1);
                assert(upto.drop_last() =~= old(self).butters@.take(i as int));
                assert(upto.last() == old(self).butters[i as int]);
                assert(self.butters@.take(i + 1) =~= flown_before.push(b));
            }
            i += 1;
        }
        assert(self.butters@.take(i as int) =~= self.butters@);
        assert(old(self).butters@.take(i as int) =~= old(self).butters@);
    }

    /// Removes the projectiles that have hit or have left the arena; the
    /// others keep their order.
    pub fn prune_butters(&mut self)
        requires
            old(self).settled(),
        ensures
            final(self).wf(),
            final(self).butters@ == staying_butters(old(self).butters@),
            final(self).player == old(self).player,
            final(self).enemies == old(self).enemies,
            final(self).wave_number == old(self).wave_number,
            final(self).enemies_spawned == old(self).enemies_spawned,
            final(self).spawn_timer == old(self).spawn_timer,
            final(self).total_kills == old(self).total_kills,
    {
        let mut kept: Vec<Butter> = Vec::new();
        let mut i: usize = 0;
        proof {
            reveal(Seq::filter);
            assert(self.butters@.take(0) =~= Seq::<Butter>::empty());
        }
        while i < self.butters.len()
            invariant
                i <= self.butters.len(),
                *self == *old(self),
                self.settled(),
                kept@ == staying_butters(self.butters@.take(i as int)),
                forall|j: int| 0 <= j < kept.len() ==> (#[trigger] kept[j]).wf(),
            decreases self.butters.len() - i,
        {
            let b = self.butters[i];
            proof {
                reveal(Seq::filter);
                assert(self.butters@.take(i + 1).drop_last() =~= self.butters@.take(i as int));
            }
            if b.valid && b.pos.is_inside_arena() {
                kept.push(b);
            }
            i += 1;
        }
        assert(self.butters@.take(i as int) =~= self.butters@);
        self.butters = kept;
    }

    /// Removes the enemies that are no longer valid, and says how many
    /// they were; the others keep their order.
    pub fn prune_enemies(&mut self) -> (removed: u32)
        requires
            old(self).wf(),
        ensures
            final(self).wf(),
            final(self).enemies@ == staying_enemies(old(self).enemies@),
            removed == old(self).enemies.len() - final(self).enemies.len(),
            final(self).player == old(self).player,
            final(self).butters == old(self).butters,
            final(self).wave_number == old(self).wave_number,
            final(self).enemies_spawned == old(self).enemies_spawned,
            final(self).spawn_timer == old(self).spawn_timer,
            final(self).total_kills == old(self).total_kills,
    {
        let mut kept: Vec<Enemy> = Vec::new();
        let mut removed: u32 = 0;
        let mut i: usize = 0;
        proof {
            reveal(Seq::filter);
            assert(self.enemies@.take(0) =~= Seq::<Enemy>::empty());
        }
        while i < self.enemies.len()
            invariant
                i <= self.enemies.len(),
                *self == *old(self),
                self.wf(),
                kept@ == staying_enemies(self.enemies@.take(i as int)),
                kept.len() + removed == i,
                forall|j: int| 0 <= j < kept.len() ==> (#[trigger] kept[j]).wf(),
            decreases self.enemies.len() - i,
        {
            let e = self.enemies[i];
            proof {
                reveal(Seq::filter);
                assert(self.enemies@.take(i + 1).drop_last() =~= self.enemies@.take(i as int));
            }
            if e.is_valid() {
                kept.push(e);
            } else {
                removed += 1;
            }
            i += 1;
        }
        assert(self.enemies@.take(i as int) =~= self.enemies@);
        self.enemies = kept;
        removed
    }

    /// Sends every enemy toward its nearest way out of the arena.
    pub fn walk_off_all(&mut self)
        requires
            old(self).wf(),
        ensures
            final(self).wf(),
            final(self).enemies.len() == old(self).enemies.len(),
            forall|i: int|
                0 <= i < old(self).enemies.len() ==> #[trigger] final(self).enemies[i] == (Enemy {
                    target_pos: Enemy::escape_point(old(self).enemies[i].pos),
                    ..old(self).enemies[i]
                }),
            final(self).player == old(self).player,
            final(self).butters == old(self).butters,
            final(self).wave_number == old(self).wave_number,
            final(self).enemies_spawned == old(self).enemies_spawned,
            final(self).spawn_timer == old(self).spawn_timer,
            final(self).total_kills == old(self).total_kills,
    {
        let mut i: usize = 0;
        while i < self.enemies.len()
            invariant
                i <= self.enemies.len(),
                self.wf(),
                self.enemies.len() == old(self).enemies.len(),
                forall|j: int|
                    0 <= j < i ==> #[trigger] self.enemies[j] == (Enemy {
                        target_pos: Enemy::escape_point(old(self).enemies[j].pos),
                        ..old(self).enemies[j]
                    }),
                forall|j: int| i <= j < self.enemies.len() ==> #[trigger] self.enemies[j] == old(self).enemies[j],
                self.player == old(self).player,
                self.butters == old(self).butters,
                self.wave_number == old(self).wave_number,
                self.enemies_spawned == old(self).enemies_spawned,
                self.spawn_timer == old(self).spawn_timer,
                self.total_kills == old(self).total_kills,
            decreases self.enemies.len() - i,
        {
            let mut e = self.enemies[i];
            e.walk_off();
            self.enemies.set(i, e);
            i += 1;
        }
    }

    /// One tick of every enemy after the player's death, in the roster's
    /// order: each walks on, and is no longer valid once it is out of
    /// sight.
    pub fn dead_update_enemies(&mut self, dt: u32)
        requires
            old(self).settled(),
        ensures
            final(self).settled(),
            final(self).enemies.len() == old(self).enemies.len(),
            forall|i: int|
                0 <= i < old(self).enemies.len() ==> #[trigger] final(self).enemies[i] == (Enemy {
                    pos: old(self).enemies[i].walked_to(dt),
                    current_animation: if old(self).player.center().y > old(self).enemies[i].walked_to(dt).y {
                        1usize
                    } else {
                        0usize
                    },
                    valid: old(self).enemies[i].valid && final(self).enemies[i].in_sight(),
                    ..old(self).enemies[i]
                }),
            final(self).player == old(self).player,
            final(self).butters == old(self).butters,
            final(self).wave_number == old(self).wave_number,
            final(self).enemies_spawned == old(self).enemies_spawned,
            final(self).spawn_timer == old(self).spawn_timer,
            final(self).total_kills == old(self).total_kills,
    {
        let mut i: usize = 0;
        while i < self.enemies.len()
            invariant
                i <= self.enemies.len(),
                self.settled(),
                self.enemies.len() == old(self).enemies.len(),
                forall|j: int|
                    0 <= j < i ==> #[trigger] self.enemies[j] == (Enemy {
                        pos: old(self).enemies[j].walked_to(dt),
                        current_animation: if old(self).player.center().y > old(self).enemies[j].walked_to(dt).y {
                            1usize
                        } else {
                            0usize
                        },
                        valid: old(self).enemies[j].valid && self.enemies[j].in_sight(),
                        ..old(self).enemies[j]
                    }),
                forall|j: int| i <= j < self.enemies.len() ==> #[trigger] self.enemies[j] == old(self).enemies[j],
                self.player == old(self).player,
                self.butters == old(self).butters,
                self.wave_number == old(self).wave_number,
                self.enemies_spawned == old(self).enemies_spawned,
                self.spawn_timer == old(self).spawn_timer,
                self.total_kills == old(self).total_kills,
            decreases self.enemies.len() - i,
        {
            let mut e = self.enemies[i];
            e.dead_update(dt, &self.player);
            self.enemies.set(i, e);
            i += 1;
        }
    }

    /// Every enemy of `after` is `before`'s enemy of the same place after
    /// a tick in which the player is dead.
    pub open spec fn walked_on(before: Seq<Enemy>, after: Seq<Enemy>, dt: u32, center: Vec2) -> bool {
        &&& after.len() == before.len()
        &&& forall|i: int|
            0 <= i < before.len() ==> #[trigger] after[i] == (Enemy {
                pos: before[i].walked_to(dt),
                current_animation: if center.y > before[i].walked_to(dt).y { 1usize } else { 0usize },
                valid: before[i].valid && after[i].in_sight(),
                ..before[i]
            })
    }

    /// What one tick after the player's death makes of the game, whatever
    /// the clock reads. The player is updated, then every projectile,
    /// then every enemy walks on; at last the projectiles that have hit or
    /// left and the enemies that are out of sight are removed. Nobody
    /// appears, and nothing is counted.
    pub open spec fn dead_ticked(pre: Level, post: Level, input: Input, dt: u32) -> bool {
        &&& post.wave_number == pre.wave_number
        &&& post.enemies_spawned == pre.enemies_spawned
        &&& post.spawn_timer == pre.spawn_timer
        &&& post.total_kills == pre.total_kills
        &&& exists|player: Player, butters: Seq<Butter>|
            {
                &&& #[trigger] Player::updated(pre.player, player, input, dt, pre.butters@, butters)
                &&& Level::dead_settled(volley(butters, dt, player, pre.enemies@), post, dt)
            }
    }

    /// The end of a tick after the player's death: `flown` is what the
    /// projectiles have made of themselves, of the player and of the
    /// enemies. The enemies walk on, and who has hit, has left or is out
    /// of sight is removed.
    pub open spec fn dead_settled(flown: (Seq<Butter>, Player, Seq<Enemy>), post: Level, dt: u32) -> bool {
        &&& post.player == flown.1
        &&& post.butters@ == staying_butters(flown.0)
        &&& exists|enemies: Seq<Enemy>|
            {
                &&& #[trigger] Level::walked_on(flown.2, enemies, dt, flown.1.center())
                &&& post.enemies@ == staying_enemies(enemies)
            }
    }

    /// One tick of the game while the player is alive. In this order: the
    /// spawner runs; the player, every enemy and every projectile are
    /// updated; the projectiles that have hit or left and the enemies that
    /// are no longer valid are removed, and the removed enemies counted as
    /// kills; if the player is dead now, every enemy turns to leave; and
    /// if the wave is over, the next one begins.
    ///
    /// Whatever the clock reads and the draws give: the wave stays or goes
    /// up by one, and is not over when the tick ends; the kills grow by at
    /// most the enemies that were about and the one that may have
    /// appeared; whoever is left is valid, and every projectile inside the
    /// arena. While the wave stays the player is not healed; when it goes
    /// up the player is rewarded once, and the new wave's first enemy is
    /// all that is about.
    pub fn update(&mut self, input: &Input, dt: u32)
        requires
            old(self).wf(),
            old(self).has_headroom(),
            input.wf(),
        ensures
            final(self).wf(),
            Level::ticked(*old(self), *final(self), *input, dt),
            final(self).wave_number == old(self).wave_number || final(self).wave_number == old(
                self,
            ).wave_number + 1,
            !final(self).wave_over(),
            old(self).total_kills <= final(self).total_kills <= old(self).total_kills + old(
                self,
            ).enemies.len() + 1,
            forall|i: int| 0 <= i < final(self).enemies.len() ==> (#[trigger] final(self).enemies[i]).valid,
            forall|i: int| 0 <= i < final(self).butters.len() ==> butter_stays(#[trigger] final(self).butters[i]),
            final(self).wave_number == old(self).wave_number ==> {
                &&& final(self).player.hp <= old(self).player.hp
                &&& final(self).player.max_hp == old(self).player.max_hp
                &&& final(self).enemies.len() <= old(self).enemies.len() + 1
                &&& final(self).enemies_spawned <= old(self).enemies_spawned + 1
                &&& final(self).player.dead() ==> forall|i: int|
                    0 <= i < final(self).enemies.len() ==> (#[trigger] final(self).enemies[i]).target_pos
                        == Enemy::escape_point(final(self).enemies[i].pos)
            },
            final(self).wave_number == old(self).wave_number + 1 ==> {
                &&& 1 <= final(self).player.hp <= old(self).player.hp + 1
                &&& old(self).player.max_hp <= final(self).player.max_hp <= old(self).player.max_hp + 1
                &&& final(self).enemies.len() == 1
                &&& final(self).enemies_spawned == 1
                &&& final(self).spawn_timer == spawn_interval(final(self).wave_number as int)
            },
            !old(self).player.dead() ==> 0 <= final(self).player.pos.x <= ARENA - PLAYER_SIZE,
            !old(self).player.dead() ==> 0 <= final(self).player.pos.y <= ARENA - PLAYER_SIZE,
    {
        self.spawn_enemy(dt);
        let ghost spawned = *self;
        self.player.update(input, dt, &mut self.butters);
        let ghost acted = *self;
        self.update_enemies(dt);
        let ghost marched = *self;
        self.update_butters(dt);
        proof {
            volley_spares_the_cap(marched.butters@, dt, marched.player, marched.enemies@);
        }
        let ghost flown = *self;
        self.prune_butters();
        let removed = self.prune_enemies();
        proof {
            staying_enemies_are_valid(flown.enemies@);
            staying_butters_stay(flown.butters@);
        }
        self.total_kills += removed;
        if self.player.is_dead() {
            self.walk_off_all();
            assert(self.enemies@ =~= turned_away(staying_enemies(flown.enemies@)));
        }
        let ghost settled = *self;
        if self.is_wave_over() {
            proof {
                enemies_to_spawn_bounds(self.wave_number + 1);
            }
            self.set_wave(self.wave_number + 1);
        }
        proof {
            assert(Level::closed(settled, *self));
            assert(Level::settled_from(marched, settled, dt));
            assert(Level::flown_on(marched, *self, dt));
            assert(Level::enemies_acted(acted, marched, dt));
            assert(Level::marched_on(acted, *self, dt));
            assert(Level::player_acted(spawned, acted, *input, dt));
            assert(Level::ticked_on(spawned, *self, *input, dt));
        }
    }

    /// One tick of the game after the player's death: the player, every
    /// projectile and every enemy are updated, the enemies walking on
    /// toward their way out; then the enemies that are out of sight and
    /// the projectiles that have hit or left are removed. Nobody appears,
    /// and nothing is counted.
    pub fn dead_update(&mut self, input: &Input, dt: u32)
        requires
            old(self).wf(),
            input.wf(),
        ensures
            final(self).wf(),
            Level::dead_ticked(*old(self), *final(self), *input, dt),
    {
        self.player.update(input, dt, &mut self.butters);
        let ghost player = self.player;
        let ghost butters = self.butters@;
        self.update_butters(dt);
        let ghost flown = volley(butters, dt, player, old(self).enemies@);
        self.dead_update_enemies(dt);
        let ghost enemies = self.enemies@;
        self.prune_butters();
        let _ = self.prune_enemies();
        proof {
            assert(Player::updated(old(self).player, player, *input, dt, old(self).butters@, butters));
            assert(Level::walked_on(flown.2, enemies, dt, flown.1.center()));
            assert(Level::dead_settled(flown, *final(self), dt));
        }
    }

    /// Whether the player has no health left.
    pub fn player_dead(&self) -> (dead: bool)
        ensures
            dead == self.player.dead(),
    {
        self.player.is_dead()
    }

    /// The number of the running wave.
    pub fn get_wave(&self) -> (wave: u32)
        ensures
            wave == self.wave_number,
    {
        self.wave_number
    }

    /// How many enemies have left the game.
    pub fn get_kills(&self) -> (kills: u32)
        ensures
            kills == self.total_kills,
    {
        self.total_kills
    }
}

/// The enemies that stay are valid, and no more than there were.
pub proof fn staying_enemies_are_valid(enemies: Seq<Enemy>)
    ensures
        staying_enemies(enemies).len() <= enemies.len(),
        forall|i: int| 0 <= i < staying_enemies(enemies).len() ==> (#[trigger] staying_enemies(enemies)[i]).valid,
    decreases enemies.len(),
{
    reveal(Seq::filter);
    if enemies.len() > 0 {
        staying_enemies_are_valid(enemies.drop_last());
    }
}

/// The projectiles that stay have not hit and lie inside the arena, and
/// are no more than there were.
pub proof fn staying_butters_stay(butters: Seq<Butter>)
    ensures
        staying_butters(butters).len() <= butters.len(),
        forall|i: int| 0 <= i < staying_butters(butters).len() ==> butter_stays(#[trigger] staying_butters(butters)[i]),
    decreases butters.len(),
{
    reveal(Seq::filter);
    if butters.len() > 0 {
        staying_butters_stay(butters.drop_last());
    }
}

/// Projectiles heal nobody: after a volley the player has no more health
/// than before, and the same cap.
pub proof fn volley_spares_the_cap(butters: Seq<Butter>, dt: u32, player: Player, enemies: Seq<Enemy>)
    ensures
        volley(butters, dt, player, enemies).1.hp <= player.hp,
        volley(butters, dt, player, enemies).1.max_hp == player.max_hp,
        volley(butters, dt, player, enemies).1.pos == player.pos,
        volley(butters, dt, player, enemies).2.len() == enemies.len(),
    decreases butters.len(),
{
    if butters.len() > 0 {
        volley_spares_the_cap(butters.drop_last(), dt, player, enemies);
    }
}

/// A restart forgets what was before it: a game that was restarted twice
/// is, for all that a restart settles, as after one restart.
pub proof fn restart_twice_is_restart_once(before: Level, once: Level, twice: Level)
    requires
        Level::restarted(before, once),
        Level::restarted(once, twice),
    ensures
        Level::restarted(before, twice),
{
}

} // verus!
