//! Enemies, and the projectiles that they throw.

use vstd::prelude::*;
use rand::rngs::ThreadRng;
use web_time::Instant;
use crate::animation::Anmiation;
use crate::charge::{charge_bonus, get_charge_bonus};
use crate::clock::{millis_since, now};
use crate::collision::{rect_rect, rect_rect_spec};
use crate::player::Player;
use crate::random::below;
use crate::steering::{move_towards, move_towards_spec, within_reach};
use crate::vectors::{saturated, saturating_difference, saturating_sum, Vec2, ARENA, COORD_MAX};

verus! {

/// Side of an enemy's square.
pub const ENEMY_SIZE: i64 = 50_000;

/// Speed of an enemy, in sub-units per millisecond.
pub const ENEMY_SPEED: i64 = 40;

/// Health of a new enemy, in thousandths of a point.
pub const ENEMY_HEALTH: i64 = 65_000;

/// An enemy throws once more than this many milliseconds have passed since
/// its last throw.
pub const FIRE_AFTER: u64 = 2000;

/// An enemy picks a new target once more than this many milliseconds have
/// gathered on its decision timer.
pub const DECIDE_AFTER: u64 = 1500;

/// An enemy is shown throwing once more than this many milliseconds have
/// passed since its last throw.
pub const WIND_UP_AFTER: u64 = 1500;

/// The decision timer of a new enemy: so high that its first update picks
/// a target.
pub const FIRST_DECISION: u64 = 100_000;

/// How far outside the arena enemies appear and vanish.
pub const MARGIN: i64 = 50_000;

/// Largest magnitude of a coordinate of a target that an enemy picks.
pub const TARGET_REACH: i64 = 0x400_0000_0000;

/// Largest magnitude of a coordinate of an enemy.
pub const ENEMY_REACH: i64 = 0x800_0000_0000;

/// Side of a projectile's square.
pub const BUTTER_SIZE: i64 = 15_000;

/// Length of a projectile's velocity, in sub-units per second.
pub const BUTTER_SPEED: i64 = 100_000;

/// Damage of a new projectile, in thousandths of a point.
pub const BUTTER_DAMAGE: i64 = 30_000;

/// Largest magnitude of a coordinate of a projectile before it moves.
pub const BUTTER_REACH: i64 = 0x1000_0000_0000;

/// Of a thousand draws, those up to this one send the enemy at the player.
pub const PURSUE_UP_TO: u32 = 333;

/// Of a thousand draws, those above [`PURSUE_UP_TO`] and up to this one
/// send the enemy beside the player; the rest send it anywhere.
pub const FLANK_UP_TO: u32 = 666;

/// Widest sideways offset of a flanking target.
pub const FLANK_JITTER: i64 = 300_000;

/// The way that a displacement of `v` per second covers in `dt`
/// milliseconds, rounded toward zero.
pub open spec fn per_tick(v: int, dt: int) -> int {
    if v >= 0 {
        v * dt / 1000
    } else {
        -((-v) * dt / 1000)
    }
}

/// Computes [`per_tick`] for one coordinate of a projectile's velocity.
pub fn scale_by_time(v: i64, dt: u32) -> (way: i64)
    requires
        -BUTTER_SPEED <= v <= BUTTER_SPEED,
    ensures
        way == per_tick(v as int, dt as int),
        -100 * dt <= way <= 100 * dt,
{
    let m: u128 = if v >= 0 { v as u128 } else { (-v) as u128 };
    assert(0 <= m * (dt as u128) <= 100_000 * dt) by (nonlinear_arith)
        requires
            0 <= m <= 100_000,
            0 <= dt,
    ;
    let q: u128 = m * (dt as u128) / 1000;
    if v >= 0 {
        q as i64
    } else {
        -(q as i64)
    }
}

/// The random draws that decide one choice of target.
#[derive(Clone, Copy, Debug, PartialEq, Eq, Structural)]
pub struct TargetRoll {
    /// The draw, out of a thousand, that picks the policy.
    pub policy: u32,
    /// Flanking: the sideways offset. Wandering: the target's x.
    pub first: i64,
    /// Wandering: the target's y.
    pub second: i64,
    /// Flanking: whether the offset is applied.
    pub flip_first: bool,
    /// Flanking: whether the target's x is added to its y.
    pub flip_second: bool,
}

impl TargetRoll {
    /// The draws lie in the ranges that they are drawn from.
    pub open spec fn wf(&self) -> bool {
        &&& self.policy < 1000
        &&& 0 <= self.first < ARENA
        &&& 0 <= self.second < ARENA
        &&& (PURSUE_UP_TO < self.policy <= FLANK_UP_TO ==> self.first < FLANK_JITTER)
    }
}

/// The target that an enemy picks on the draws `roll`, the player's centre
/// being at `center`: the player itself, a point beside the player, or any
/// point of the arena.
pub open spec fn target_for(center: Vec2, roll: TargetRoll) -> (int, int) {
    if roll.policy <= PURSUE_UP_TO {
        (center.x as int, center.y as int)
    } else if roll.policy <= FLANK_UP_TO {
        let x = center.x - (if roll.flip_first { roll.first as int } else { 0 });
        (x, FLANK_JITTER + center.y + (if roll.flip_second { x } else { 0 }))
    } else {
        (roll.first as int, roll.second as int)
    }
}

/// Computes [`target_for`].
pub fn choose_target(center: Vec2, roll: &TargetRoll) -> (target: Vec2)
    requires
        roll.wf(),
        center.within(COORD_MAX + ENEMY_SIZE),
    ensures
        (target.x as int, target.y as int) == target_for(center, *roll),
        target.within(TARGET_REACH as int),
{
    if roll.policy <= PURSUE_UP_TO {
        center
    } else if roll.policy <= FLANK_UP_TO {
        let x: i64 = if roll.flip_first { center.x - roll.first } else { center.x };
        let y: i64 = if roll.flip_second { FLANK_JITTER + center.y + x } else { FLANK_JITTER + center.y };
        Vec2 { x, y }
    } else {
        Vec2 { x: roll.first, y: roll.second }
    }
}

/// Draws what one choice of target needs: first the policy, then what the
/// policy asks for.
pub fn draw_roll(rand: &mut ThreadRng) -> (roll: TargetRoll)
    ensures
        roll.wf(),
{
    let policy: u32 = below(rand, 1000);
    if policy <= PURSUE_UP_TO {
        TargetRoll { policy, first: 0, second: 0, flip_first: false, flip_second: false }
    } else if policy <= FLANK_UP_TO {
        let jitter: u32 = below(rand, FLANK_JITTER as u32);
        let flip_first: bool = below(rand, 2) == 0;
        let flip_second: bool = below(rand, 2) == 0;
        TargetRoll { policy, first: jitter as i64, second: 0, flip_first, flip_second }
    } else {
        let x: u32 = below(rand, ARENA as u32);
        let y: u32 = below(rand, ARENA as u32);
        TargetRoll { policy, first: x as i64, second: y as i64, flip_first: false, flip_second: false }
    }
}

/// A projectile: it flies in a straight line until it hits or leaves the
/// arena.
#[derive(Clone, Copy, Debug, PartialEq, Eq, Structural)]
pub struct Butter {
    /// The way from one second ahead back to now: each tick the projectile
    /// moves against it.
    pub velocity: Vec2,
    pub pos: Vec2,
    pub size: Vec2,
    /// Whether the player has sent it back; it then hits enemies, and the
    /// player no more.
    pub reflected: bool,
    /// In thousandths of a point.
    pub damage: i64,
    /// Cleared once it has hit.
    pub valid: bool,
}

/// The velocity of a projectile that flies from `from` toward `target`.
pub open spec fn velocity_toward(from: Vec2, target: Vec2) -> Vec2 {
    let there = move_towards_spec(from, target, BUTTER_SPEED as int);
    Vec2 { x: (from.x - there.0) as i64, y: (from.y - there.1) as i64 }
}

impl Butter {
    /// Velocity and position are in the range that the arithmetic of an
    /// update can take.
    pub open spec fn wf(&self) -> bool {
        &&& self.velocity.within(BUTTER_SPEED as int)
        &&& self.pos.within(BUTTER_REACH as int)
    }

    /// The projectile as it leaves `starting_pos` for `target`.
    pub open spec fn launched(starting_pos: Vec2, target: Vec2) -> Butter {
        Butter {
            velocity: velocity_toward(starting_pos, target),
            pos: starting_pos,
            size: Vec2 { x: BUTTER_SIZE, y: BUTTER_SIZE },
            reflected: false,
            damage: BUTTER_DAMAGE,
            valid: true,
        }
    }

    /// The projectile sent back toward `new_target` after a charge of
    /// `charge_time` milliseconds: its damage grows by the bonus of the
    /// charge, and is held at the ends of `i64`.
    pub open spec fn retargeted(&self, new_target: Vec2, charge_time: u64) -> Butter {
        Butter {
            velocity: velocity_toward(self.pos, new_target),
            pos: self.pos,
            size: self.size,
            reflected: true,
            damage: saturated(self.damage + charge_bonus(charge_time as int)) as i64,
            valid: self.valid,
        }
    }

    /// Where the projectile is after `dt` milliseconds.
    pub open spec fn next_pos(&self, dt: u32) -> Vec2 {
        Vec2 {
            x: (self.pos.x - per_tick(self.velocity.x as int, dt as int)) as i64,
            y: (self.pos.y - per_tick(self.velocity.y as int, dt as int)) as i64,
        }
    }

    /// What one tick makes of the projectile, of the player and of the
    /// enemies. The projectile moves, then hits: one that was sent back
    /// hits every live enemy that it overlaps and leaves the player
    /// alone; any other hits the player where it overlaps the player's
    /// hit box. A projectile that has hit is no longer valid.
    pub open spec fn flown(&self, dt: u32, player: Player, enemies: Seq<Enemy>) -> (Butter, Player, Seq<Enemy>) {
        let at = self.next_pos(dt);
        if self.reflected {
            (
                Butter { pos: at, valid: self.valid && self.misses(at, enemies, enemies.len() as int), ..*self },
                player,
                Seq::new(
                    enemies.len(),
                    |i: int|
                        if self.strikes(at, enemies[i]) {
                            enemies[i].struck(self.damage)
                        } else {
                            enemies[i]
                        },
                ),
            )
        } else {
            let hit = self.hits_player(at, player);
            (
                Butter { pos: at, valid: self.valid && !hit, ..*self },
                if hit { player.struck() } else { player },
                enemies,
            )
        }
    }

    /// The projectile, at `at`, overlaps none of the first `upto` enemies
    /// that are alive.
    pub open spec fn misses(&self, at: Vec2, enemies: Seq<Enemy>, upto: int) -> bool {
        forall|j: int| 0 <= j < upto ==> !#[trigger] self.strikes(at, enemies[j])
    }

    /// The projectile, at `at`, overlaps the enemy.
    pub open spec fn strikes(&self, at: Vec2, enemy: Enemy) -> bool {
        enemy.valid && rect_rect_spec(self.size, at, enemy.size, enemy.pos)
    }

    /// A projectile at `starting_pos` that flies toward `target`. One whose
    /// target is where it starts has no velocity and stays.
    pub fn new(starting_pos: Vec2, target: Vec2) -> (b: Butter)
        requires
            starting_pos.within(BUTTER_REACH as int),
            target.within(BUTTER_REACH as int),
        ensures
            b == Butter::launched(starting_pos, target),
            flies_at_most(b.velocity),
            b.wf(),
    {
        let there = move_towards(starting_pos, target, BUTTER_SPEED);
        proof {
            opposite_way_is_as_long(there.x - starting_pos.x, there.y - starting_pos.y);
        }
        Butter {
            velocity: Vec2 { x: starting_pos.x - there.x, y: starting_pos.y - there.y },
            pos: starting_pos,
            size: Vec2 { x: BUTTER_SIZE, y: BUTTER_SIZE },
            reflected: false,
            damage: BUTTER_DAMAGE,
            valid: true,
        }
    }

    /// Moves the projectile by `dt` milliseconds, then lets it hit. One
    /// that was sent back hits every live enemy that it overlaps, each for
    /// its damage, and leaves the player alone. Any other hits the player,
    /// for one point, where it overlaps the lower half of the player's
    /// rectangle. A projectile that has hit is no longer valid.
    pub fn update(&mut self, dt: u32, player: &mut Player, enemies: &mut Vec<Enemy>)
        requires
            old(self).wf(),
            old(player).wf(),
        ensures
            (*final(self), *final(player), final(enemies)@) == old(self).flown(dt, *old(player), old(enemies)@),
            final(player).wf(),
            final(enemies).len() == old(enemies).len(),
            forall|i: int|
                0 <= i < old(enemies).len() && (#[trigger] old(enemies)[i]).wf() ==> final(enemies)[i].wf(),
    {
        let way_x = scale_by_time(self.velocity.x, dt);
        let way_y = scale_by_time(self.velocity.y, dt);
        self.pos = Vec2 { x: self.pos.x - way_x, y: self.pos.y - way_y };
        if self.reflected {
            let mut i: usize = 0;
            while i < enemies.len()
                invariant
                    i <= enemies.len(),
                    enemies.len() == old(enemies).len(),
                    self.pos == old(self).next_pos(dt),
                    self.velocity == old(self).velocity,
                    self.size == old(self).size,
                    self.reflected == old(self).reflected,
                    self.damage == old(self).damage,
                    *player == *old(player),
                    forall|j: int|
                        0 <= j < i ==> #[trigger] enemies[j] == (if old(self).strikes(
                            self.pos,
                            old(enemies)[j],
                        ) {
                            old(enemies)[j].struck(old(self).damage)
                        } else {
                            old(enemies)[j]
                        }),
                    forall|j: int| i <= j < enemies.len() ==> #[trigger] enemies[j] == old(enemies)[j],
                    self.valid == (old(self).valid && old(self).misses(self.pos, old(enemies)@, i as int)),
                    forall|j: int|
                        0 <= j < enemies.len() && (#[trigger] old(enemies)[j]).wf() ==> enemies[j].wf(),
                decreases enemies.len() - i,
            {
                let mut e = enemies[i];
                let hit = e.is_valid() && rect_rect(self.size, self.pos, e.size, e.pos);
                assert(hit == old(self).strikes(self.pos, old(enemies)[i as int]));
                assert(old(self).misses(self.pos, old(enemies)@, i + 1) == (!hit && old(self).misses(
                    self.pos,
                    old(enemies)@,
                    i as int,
                )));
                if hit {
                    e.on_hit(self.damage);
                    enemies.set(i, e);
                    self.valid = false;
                }
                i += 1;
            }
            assert(final(enemies)@ =~= old(self).flown(dt, *old(player), old(enemies)@).2);
        } else {
            let (box_pos, box_size) = player.get_hit_box();
            if rect_rect(self.size, self.pos, box_size, box_pos) {
                player.on_hit();
                self.valid = false;
            }
        }
    }

    /// The projectile, at `at`, overlaps the part of the player that can be
    /// hit.
    pub open spec fn hits_player(&self, at: Vec2, player: Player) -> bool {
        rect_rect_spec(self.size, at, player.hit_box().1, player.hit_box().0)
    }

    /// Sends the projectile toward `new_target`, at the speed of every
    /// projectile, adds to its damage the bonus that a charge of
    /// `charge_time` milliseconds earns, and marks it as sent back.
    pub fn change_target(&mut self, new_target: Vec2, charge_time: u64)
        requires
            old(self).pos.within(BUTTER_REACH as int),
            new_target.within(BUTTER_REACH as int),
        ensures
            *final(self) == old(self).retargeted(new_target, charge_time),
            flies_at_most(final(self).velocity),
            final(self).wf(),
    {
        let there = move_towards(self.pos, new_target, BUTTER_SPEED);
        proof {
            opposite_way_is_as_long(there.x - self.pos.x, there.y - self.pos.y);
        }
        self.velocity = Vec2 { x: self.pos.x - there.x, y: self.pos.y - there.y };
        self.damage = saturating_sum(self.damage, get_charge_bonus(charge_time));
        self.reflected = true;
    }

    /// Whether the player has sent the projectile back.
    pub fn is_reflected(&self) -> (r: bool)
        ensures
            r == self.reflected,
    {
        self.reflected
    }
}

/// An enemy: it walks toward a target of its choice and throws at the
/// player.
#[derive(Clone, Copy, Debug)]
pub struct Enemy {
    pub pos: Vec2,
    pub size: Vec2,
    /// When it last threw.
    pub shot_cooldown: Instant,
    /// Cleared once it is defeated or has left; it is then removed.
    pub valid: bool,
    /// In sub-units per millisecond.
    pub speed: i64,
    /// Milliseconds gathered toward the next choice of target.
    pub desision_timer: u64,
    pub target_pos: Vec2,
    /// In thousandths of a point.
    pub hp: i64,
    /// 0 and 1: walking, seen from the front and from the back; 2 and 3:
    /// throwing.
    pub current_animation: usize,
}

/// On one axis, an enemy at `p` with its target at `t` is in the range that
/// the arithmetic of an update can take.
pub open spec fn axis_in_reach(p: i64, t: i64) -> bool {
    &&& -ENEMY_REACH <= p <= ENEMY_REACH
    &&& (-TARGET_REACH <= t <= TARGET_REACH || t == p)
}

impl Enemy {
    /// Size and speed are those of every enemy, and position, target and
    /// timer are in range.
    pub open spec fn wf(&self) -> bool {
        &&& axis_in_reach(self.pos.x, self.target_pos.x)
        &&& axis_in_reach(self.pos.y, self.target_pos.y)
        &&& self.size == (Vec2 { x: ENEMY_SIZE, y: ENEMY_SIZE })
        &&& self.speed == ENEMY_SPEED
        &&& self.desision_timer <= FIRST_DECISION
        &&& self.current_animation < 4
    }

    /// The centre of the enemy's square.
    pub open spec fn center(&self) -> Vec2 {
        Vec2 { x: (self.pos.x + ENEMY_SIZE / 2) as i64, y: (self.pos.y + ENEMY_SIZE / 2) as i64 }
    }

    /// The enemy after a hit of `damage`: its health is lowered, and held
    /// at the ends of `i64`; it is no longer valid once its health is below
    /// zero.
    pub open spec fn struck(&self, damage: i64) -> Enemy {
        Enemy {
            hp: saturated(self.hp - damage) as i64,
            valid: self.valid && saturated(self.hp - damage) >= 0,
            ..*self
        }
    }

    /// The enemy is as [`Enemy::new`] makes it at `pos`, whenever that
    /// was.
    pub open spec fn fresh_at(&self, pos: Vec2) -> bool {
        &&& self.pos == pos
        &&& self.size == (Vec2 { x: ENEMY_SIZE, y: ENEMY_SIZE })
        &&& self.valid
        &&& self.speed == ENEMY_SPEED
        &&& self.desision_timer == FIRST_DECISION
        &&& self.target_pos == (Vec2 { x: 0, y: 0 })
        &&& self.hp == ENEMY_HEALTH
        &&& self.current_animation == 0
    }

    /// The enemy lies within the margin around the arena.
    pub open spec fn in_sight(&self) -> bool {
        &&& -MARGIN < self.pos.x < ARENA + MARGIN
        &&& -MARGIN < self.pos.y < ARENA + MARGIN
    }

    /// The point on the nearest of the four lines that run [`MARGIN`]
    /// outside the arena, straight across from `pos`. Where a vertical and
    /// a horizontal line are equally near, the horizontal one is taken;
    /// of two opposite lines that are equally near, the far one (right,
    /// bottom).
    pub open spec fn escape_point(pos: Vec2) -> Vec2 {
        let left = pos.x + MARGIN;
        let right = ARENA + MARGIN - pos.x;
        let top = pos.y + MARGIN;
        let bottom = ARENA + MARGIN - pos.y;
        let nearest_x = if left <= right { left } else { right };
        let nearest_y = if top <= bottom { top } else { bottom };
        if nearest_x < nearest_y {
            if left < right {
                Vec2 { x: (-MARGIN) as i64, y: pos.y }
            } else {
                Vec2 { x: (ARENA + MARGIN) as i64, y: pos.y }
            }
        } else {
            if top < bottom {
                Vec2 { x: pos.x, y: (-MARGIN) as i64 }
            } else {
                Vec2 { x: pos.x, y: (ARENA + MARGIN) as i64 }
            }
        }
    }

    /// An enemy at `pos`, at full health, that has just thrown and has yet
    /// to pick a target.
    pub fn new(pos: Vec2) -> (e: Enemy)
        requires
            pos.within(ENEMY_REACH as int),
        ensures
            e.wf(),
            e.fresh_at(pos),
    {
        Enemy {
            pos,
            size: Vec2 { x: ENEMY_SIZE, y: ENEMY_SIZE },
            shot_cooldown: now(),
            valid: true,
            speed: ENEMY_SPEED,
            desision_timer: FIRST_DECISION,
            target_pos: Vec2 { x: 0, y: 0 },
            hp: ENEMY_HEALTH,
            current_animation: 0,
        }
    }

    /// The frame counters of the four sheets that show enemies: walking
    /// seen from the front and from the back, throwing seen from the front
    /// and from the back; five frames each, six a second, looping.
    pub fn create_animations() -> (sheets: Vec<Anmiation>)
        ensures
            sheets.len() == 4,
            forall|i: int|
                0 <= i < 4 ==> #[trigger] sheets[i] == (Anmiation {
                    frames: 5,
                    current_frame: 0,
                    frame_time_counter: 0,
                    frame_time: 167,
                    looping: true,
                }),
    {
        vec![
            Anmiation::new(5, 167, true),
            Anmiation::new(5, 167, true),
            Anmiation::new(5, 167, true),
            Anmiation::new(5, 167, true),
        ]
    }

    /// Whether the enemy is still part of the game.
    pub fn is_valid(&self) -> (v: bool)
        ensures
            v == self.valid,
    {
        self.valid
    }

    /// Takes `damage` from the enemy's health.
    pub fn on_hit(&mut self, damage: i64)
        ensures
            *final(self) == old(self).struck(damage),
            old(self).wf() ==> final(self).wf(),
    {
        self.hp = saturating_difference(self.hp, damage);
        if self.hp < 0 {
            self.valid = false;
        }
    }

    /// The centre of the enemy's square.
    pub fn get_center(&self) -> (c: Vec2)
        requires
            self.wf(),
        ensures
            c == self.center(),
            c.within(ENEMY_REACH + ENEMY_SIZE),
    {
        Vec2 { x: self.pos.x + self.size.x / 2, y: self.pos.y + self.size.y / 2 }
    }

    /// Makes the nearest way out of the arena the enemy's target.
    pub fn walk_off(&mut self)
        requires
            old(self).wf(),
        ensures
            final(self).wf(),
            *final(self) == (Enemy { target_pos: Enemy::escape_point(old(self).pos), ..*old(self) }),
    {
        let left_dist: i64 = self.pos.x + MARGIN;
        let right_dist: i64 = ARENA + MARGIN - self.pos.x;
        let top_dist: i64 = self.pos.y + MARGIN;
        let bottom_dist: i64 = ARENA + MARGIN - self.pos.y;
        let closest_x: i64 = if left_dist <= right_dist { left_dist } else { right_dist };
        let closest_y: i64 = if top_dist <= bottom_dist { top_dist } else { bottom_dist };
        if closest_x < closest_y {
            if left_dist < right_dist {
                self.target_pos = Vec2 { x: -MARGIN, y: self.pos.y };
            } else {
                self.target_pos = Vec2 { x: ARENA + MARGIN, y: self.pos.y };
            }
        } else {
            if top_dist < bottom_dist {
                self.target_pos = Vec2 { x: self.pos.x, y: -MARGIN };
            } else {
                self.target_pos = Vec2 { x: self.pos.x, y: ARENA + MARGIN };
            }
        }
    }

    /// Where the enemy stands after walking for `dt` milliseconds toward
    /// its target.
    pub open spec fn walked_to(&self, dt: u32) -> Vec2 {
        let there = move_towards_spec(self.pos, self.target_pos, ENEMY_SPEED * dt);
        Vec2 { x: there.0 as i64, y: there.1 as i64 }
    }

    /// The sheet of an enemy at `pos` that threw `since_shot` milliseconds
    /// ago: throwing after the wind-up time, else walking; and seen from
    /// the back where the player's centre is above it.
    pub open spec fn sheet_for(pos: Vec2, since_shot: u64, player_center: Vec2) -> usize {
        ((if since_shot > WIND_UP_AFTER { 2int } else { 0int }) + (if player_center.y < pos.y { 1int } else { 0int })) as usize
    }

    /// Throws at `target` if the last throw is more than [`FIRE_AFTER`]
    /// milliseconds ago, `since_shot` being the time since then and
    /// `reading` the clock's reading now. The projectile starts at the
    /// enemy's centre and joins the end of `butters`.
    pub fn fire(&mut self, since_shot: u64, target: Vec2, butters: &mut Vec<Butter>, reading: Instant) -> (fired: bool)
        requires
            old(self).wf(),
            target.within(COORD_MAX + ENEMY_SIZE),
        ensures
            fired == (since_shot > FIRE_AFTER),
            fired ==> final(butters)@ == old(butters)@.push(Butter::launched(old(self).center(), target)),
            fired ==> Butter::launched(old(self).center(), target).wf(),
            !fired ==> final(butters)@ == old(butters)@,
            *final(self) == (Enemy {
                shot_cooldown: if fired { reading } else { old(self).shot_cooldown },
                ..*old(self)
            }),
    {
        if since_shot > FIRE_AFTER {
            butters.push(Butter::new(self.get_center(), target));
            self.shot_cooldown = reading;
            true
        } else {
            false
        }
    }

    /// Lets `dt` milliseconds gather on the decision timer. Once more than
    /// [`DECIDE_AFTER`] have gathered a new target is due, and the timer
    /// keeps what is left over after whole periods.
    pub fn decide(&mut self, dt: u32) -> (due: bool)
        requires
            old(self).wf(),
        ensures
            due == (old(self).desision_timer + dt > DECIDE_AFTER),
            *final(self) == (Enemy {
                desision_timer: if due {
                    ((old(self).desision_timer + dt) % (DECIDE_AFTER as int)) as u64
                } else {
                    (old(self).desision_timer + dt) as u64
                },
                ..*old(self)
            }),
            final(self).wf(),
    {
        self.desision_timer += dt as u64;
        if self.desision_timer > DECIDE_AFTER {
            self.desision_timer %= DECIDE_AFTER;
            true
        } else {
            false
        }
    }

    /// Makes the target that the draws `roll` pick, the player's centre
    /// being at `center`, the enemy's target.
    pub fn retarget(&mut self, center: Vec2, roll: &TargetRoll)
        requires
            old(self).wf(),
            roll.wf(),
            center.within(COORD_MAX + ENEMY_SIZE),
        ensures
            (final(self).target_pos.x as int, final(self).target_pos.y as int) == target_for(center, *roll),
            *final(self) == (Enemy { target_pos: final(self).target_pos, ..*old(self) }),
            final(self).wf(),
    {
        self.target_pos = choose_target(center, roll);
    }

    /// Picks a new target by chance: a third of the time the player, a
    /// third a point beside the player, a third any point of the arena.
    pub fn switch_target(&mut self, player: &Player, rand: &mut ThreadRng)
        requires
            old(self).wf(),
            player.wf(),
        ensures
            picked(player.center(), final(self).target_pos),
            *final(self) == (Enemy { target_pos: final(self).target_pos, ..*old(self) }),
            final(self).wf(),
    {
        let roll = draw_roll(rand);
        self.retarget(player.get_center(), &roll);
    }

    /// Walks for `dt` milliseconds toward the target, and says whether the
    /// enemy now stands on it; if so the decision timer starts over.
    pub fn advance(&mut self, dt: u32) -> (arrived: bool)
        requires
            old(self).wf(),
        ensures
            arrived == (old(self).walked_to(dt) == old(self).target_pos),
            headed(*old(self), *final(self), old(self).target_pos, dt),
            walked_at_most(old(self).pos, final(self).pos, dt),
            *final(self) == (Enemy {
                pos: old(self).walked_to(dt),
                desision_timer: if arrived { 0 } else { old(self).desision_timer },
                ..*old(self)
            }),
            final(self).wf(),
    {
        self.pos = move_towards(self.pos, self.target_pos, self.speed * (dt as i64));
        if self.pos.x == self.target_pos.x && self.pos.y == self.target_pos.y {
            self.desision_timer = 0;
            true
        } else {
            false
        }
    }

    /// Picks the sheet that shows the enemy, which threw `since_shot`
    /// milliseconds ago.
    pub fn face(&mut self, since_shot: u64, player_center: Vec2)
        ensures
            *final(self) == (Enemy {
                current_animation: Enemy::sheet_for(old(self).pos, since_shot, player_center),
                ..*old(self)
            }),
            old(self).wf() ==> final(self).wf(),
    {
        if since_shot > WIND_UP_AFTER {
            self.current_animation = 2;
        } else {
            self.current_animation = 0;
        }
        if player_center.y < self.pos.y {
            self.current_animation += 1;
        }
    }

    /// One tick of an enemy after the player's death: it walks on toward
    /// its target, and is no longer valid once it is [`MARGIN`] or more
    /// outside the arena.
    pub fn dead_update(&mut self, dt: u32, player: &Player)
        requires
            old(self).wf(),
            player.wf(),
        ensures
            *final(self) == (Enemy {
                pos: old(self).walked_to(dt),
                current_animation: if player.center().y > old(self).walked_to(dt).y { 1usize } else { 0usize },
                valid: old(self).valid && final(self).in_sight(),
                ..*old(self)
            }),
            headed(*old(self), *final(self), old(self).target_pos, dt),
            walked_at_most(old(self).pos, final(self).pos, dt),
            final(self).wf(),
    {
        self.pos = move_towards(self.pos, self.target_pos, self.speed * (dt as i64));
        self.current_animation = 0;
        if player.get_center().y > self.pos.y {
            self.current_animation += 1;
        }
        self.valid = self.valid && self.pos.x > -MARGIN && self.pos.x < ARENA + MARGIN && self.pos.y > -MARGIN
            && self.pos.y < ARENA + MARGIN;
    }

    /// What one tick makes of a living enemy itself, whatever the clock
    /// reads and the draws give, the player's centre being at `center`.
    ///
    /// Where the decision timer runs past [`DECIDE_AFTER`] the enemy picks
    /// a new target; it walks toward its target; where it then stands on
    /// the target it picks again and its timer starts over. It is shown
    /// from the back where the player's centre is above it. Health and
    /// validity stay.
    pub open spec fn moved(pre: Enemy, post: Enemy, dt: u32, center: Vec2) -> bool {
        let gathered = pre.desision_timer + dt;
        let due = gathered > DECIDE_AFTER;
        let kept = if due { gathered % (DECIDE_AFTER as int) } else { gathered };
        &&& post.valid == pre.valid
        &&& post.hp == pre.hp
        &&& post.size == pre.size
        &&& post.speed == pre.speed
        &&& exists|toward: Vec2|
            {
                &&& if due { picked(center, toward) } else { toward == pre.target_pos }
                &&& #[trigger] headed(pre, post, toward, dt)
                &&& if post.pos == toward {
                    picked(center, post.target_pos) && post.desision_timer == 0
                } else {
                    post.target_pos == toward && post.desision_timer == kept
                }
            }
        &&& walked_at_most(pre.pos, post.pos, dt)
        &&& post.current_animation < 4
        &&& post.current_animation % 2 == (if center.y < post.pos.y { 1int } else { 0int })
    }

    /// What one tick makes of a living enemy and of the projectiles,
    /// whatever the clock reads and the draws give: the enemy is as
    /// [`Enemy::moved`] says, and it has thrown at most once, from its
    /// centre at the player's; one that has not thrown keeps the time of
    /// its last throw.
    pub open spec fn updated(
        pre: Enemy,
        post: Enemy,
        dt: u32,
        center: Vec2,
        pre_butters: Seq<Butter>,
        post_butters: Seq<Butter>,
    ) -> bool {
        &&& Enemy::moved(pre, post, dt, center)
        &&& (post_butters == pre_butters || post_butters == pre_butters.push(
            Butter::launched(pre.center(), center),
        ))
        &&& post_butters == pre_butters ==> post.shot_cooldown == pre.shot_cooldown
    }

    /// One tick of a living enemy: it throws when its cooldown is over,
    /// picks a new target when one is due, walks toward its target, and
    /// picks again at once when it arrives.
    pub fn update(&mut self, dt: u32, player: &Player, butters: &mut Vec<Butter>, rand: &mut ThreadRng)
        requires
            old(self).wf(),
            player.wf(),
            forall|i: int| 0 <= i < old(butters).len() ==> (#[trigger] old(butters)[i]).wf(),
        ensures
            final(self).wf(),
            Enemy::updated(*old(self), *final(self), dt, player.center(), old(butters)@, final(butters)@),
            forall|i: int| 0 <= i < final(butters).len() ==> (#[trigger] final(butters)[i]).wf(),
    {
        let center = player.get_center();
        let since_shot = millis_since(&self.shot_cooldown);
        let fired = self.fire(since_shot, center, butters, now());
        assert(fired ==> butters@.len() == old(butters)@.len() + 1);
        if self.decide(dt) {
            self.switch_target(player, rand);
        }
        let ghost toward = self.target_pos;
        if self.advance(dt) {
            self.switch_target(player, rand);
        }
        let since_shot = millis_since(&self.shot_cooldown);
        self.face(since_shot, center);
        assert(headed(*old(self), *self, toward, dt));
    }
}

/// A projectile that was not sent back and whose way crosses the player's
/// hit box hits in the tick in which it first overlaps: it is no longer
/// valid, and the player has one point of health less, or none if none
/// was left. Nobody else is touched.
pub proof fn butter_hits_the_player_at_once(b: Butter, dt: u32, player: Player, enemies: Seq<Enemy>)
    requires
        !b.reflected,
        b.hits_player(b.next_pos(dt), player),
    ensures
        !b.flown(dt, player, enemies).0.valid,
        player.hp > 0 ==> b.flown(dt, player, enemies).1.hp == player.hp - 1,
        player.hp == 0 ==> b.flown(dt, player, enemies).1.hp == 0,
        b.flown(dt, player, enemies).2 == enemies,
{
}

/// A projectile that was sent back stays so; from then on it leaves the
/// player alone, wherever it flies, and takes its damage from every live
/// enemy that it overlaps.
pub proof fn sent_back_butter_spares_the_player(
    b: Butter,
    new_target: Vec2,
    charge_time: u64,
    dt: u32,
    player: Player,
    enemies: Seq<Enemy>,
)
    ensures
        b.retargeted(new_target, charge_time).reflected,
        b.reflected ==> b.flown(dt, player, enemies).0.reflected,
        b.reflected ==> b.flown(dt, player, enemies).1 == player,
        b.reflected ==> forall|i: int|
            0 <= i < enemies.len() && #[trigger] b.strikes(b.next_pos(dt), enemies[i]) ==> b.flown(
                dt,
                player,
                enemies,
            ).2[i] == enemies[i].struck(b.damage),
{
}

/// A hit that an enemy's health can take leaves the health at zero or
/// above, and the enemy in the game if it was.
pub proof fn enemy_survives_what_its_health_covers(e: Enemy, damage: i64)
    requires
        0 <= damage <= e.hp,
    ensures
        e.struck(damage).hp == e.hp - damage,
        e.struck(damage).hp >= 0,
        e.struck(damage).valid == e.valid,
{
}

/// A way and the way back are equally long.
proof fn opposite_way_is_as_long(x: int, y: int)
    ensures
        (-x - 0) * (-x - 0) + (-y - 0) * (-y - 0) == x * x + y * y,
{
    assert((-x - 0) * (-x - 0) == x * x && (-y - 0) * (-y - 0) == y * y) by (nonlinear_arith);
}

/// The way from `from` to `to` is no longer than an enemy walks in `dt`
/// milliseconds.
pub open spec fn walked_at_most(from: Vec2, to: Vec2, dt: u32) -> bool {
    within_reach((from.x as int, from.y as int), (to.x as int, to.y as int), ENEMY_SPEED * dt)
}

/// The velocity is no longer than the speed of a projectile.
pub open spec fn flies_at_most(velocity: Vec2) -> bool {
    within_reach((0, 0), (velocity.x as int, velocity.y as int), BUTTER_SPEED as int)
}

/// The draws of some roll make `target` the target, the player's centre
/// being at `center`.
pub open spec fn picked(center: Vec2, target: Vec2) -> bool {
    exists|roll: TargetRoll| #[trigger] roll.wf() && target_for(center, roll) == (target.x as int, target.y as int)
}

/// `post` stands where `pre` gets by walking for `dt` milliseconds toward
/// `toward`.
pub open spec fn headed(pre: Enemy, post: Enemy, toward: Vec2, dt: u32) -> bool {
    let there = move_towards_spec(pre.pos, toward, ENEMY_SPEED * dt);
    post.pos.x == there.0 && post.pos.y == there.1
}

} // verus!
