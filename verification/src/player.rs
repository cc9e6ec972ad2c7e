//! The player: movement, the weapon that sends projectiles back, and
//! health.

use vstd::prelude::*;
use web_time::Instant;
use crate::animation::Anmiation;
use crate::clock::{millis_since, now};
use crate::collision::{rect_rect, rect_rect_spec};
use crate::enemy::Butter;
use crate::steering::{move_towards, move_towards_spec};
use crate::vectors::{Vec2, ARENA, COORD_MAX};

verus! {

/// Side of the player's square.
pub const PLAYER_SIZE: i64 = 50_000;

/// Speed of the player on each axis, in sub-units per millisecond.
pub const PLAYER_SPEED: i64 = 40;

/// Health, and most health, of a new player.
pub const PLAYER_HEALTH: u32 = 3;

/// How far from the player's centre the weapon is held.
pub const WEAPON_REACH: i64 = 40_000;

/// Width of the weapon's rectangle.
pub const WEAPON_WIDTH: i64 = 75_000;

/// Height of the weapon's rectangle.
pub const WEAPON_HEIGHT: i64 = 120_000;

/// A release parries only after a charge of more than this many
/// milliseconds.
pub const CHARGE_THRESHOLD: u64 = 200;

/// Where the player starts, and starts again.
pub const START: i64 = 400_000;

/// Index of the weapon's idle sheet.
pub const WEAPON_IDLE: usize = 0;

/// Index of the weapon's charging sheet.
pub const WEAPON_CHARGE: usize = 1;

/// Index of the weapon's swinging sheet.
pub const WEAPON_SWING: usize = 2;

/// What the player is shown doing.
#[derive(Clone, Copy, Debug, PartialEq, Eq, Structural)]
pub enum PlayerAnmiationState {
    IdleUp,
    IdleDown,
    IdleLeft,
    IdleRight,
    WalkingUp,
    WalkingDown,
    WalkingLeft,
    WalkingRight,
    Dead,
}

impl PlayerAnmiationState {
    /// The standing state for a direction: 0 up, 1 down, 2 left, 3 right.
    pub open spec fn idle_of(dir: u8) -> PlayerAnmiationState {
        if dir == 0 {
            PlayerAnmiationState::IdleUp
        } else if dir == 1 {
            PlayerAnmiationState::IdleDown
        } else if dir == 2 {
            PlayerAnmiationState::IdleLeft
        } else {
            PlayerAnmiationState::IdleRight
        }
    }

    /// The walking state for a direction: 0 up, 1 down, 2 left, 3 right.
    pub open spec fn walking_of(dir: u8) -> PlayerAnmiationState {
        if dir == 0 {
            PlayerAnmiationState::WalkingUp
        } else if dir == 1 {
            PlayerAnmiationState::WalkingDown
        } else if dir == 2 {
            PlayerAnmiationState::WalkingLeft
        } else {
            PlayerAnmiationState::WalkingRight
        }
    }

    /// The sheet that shows a state, and whether it is mirrored: looking
    /// left is looking right, mirrored.
    pub open spec fn sheet(self) -> (usize, bool) {
        match self {
            PlayerAnmiationState::IdleUp => (0, false),
            PlayerAnmiationState::IdleDown => (1, false),
            PlayerAnmiationState::IdleLeft => (2, true),
            PlayerAnmiationState::IdleRight => (2, false),
            PlayerAnmiationState::WalkingUp => (3, false),
            PlayerAnmiationState::WalkingDown => (4, false),
            PlayerAnmiationState::WalkingLeft => (5, true),
            PlayerAnmiationState::WalkingRight => (5, false),
            PlayerAnmiationState::Dead => (6, false),
        }
    }

    /// The standing state for the direction `dir`.
    pub fn idle_from_dir(dir: u8) -> (state: Self)
        requires
            dir <= 3,
        ensures
            state == Self::idle_of(dir),
    {
        match dir {
            0 => Self::IdleUp,
            1 => Self::IdleDown,
            2 => Self::IdleLeft,
            _ => Self::IdleRight,
        }
    }

    /// The walking state for the direction `dir`.
    pub fn walking_from_dir(dir: u8) -> (state: Self)
        requires
            dir <= 3,
        ensures
            state == Self::walking_of(dir),
    {
        match dir {
            0 => Self::WalkingUp,
            1 => Self::WalkingDown,
            2 => Self::WalkingLeft,
            _ => Self::WalkingRight,
        }
    }

    /// The index of the sheet that shows the state, and whether the sheet
    /// is mirrored.
    pub fn index(&self) -> (sheet: (usize, bool))
        ensures
            sheet == self.sheet(),
            sheet.0 < 7,
    {
        match self {
            Self::IdleUp => (0, false),
            Self::IdleDown => (1, false),
            Self::IdleLeft => (2, true),
            Self::IdleRight => (2, false),
            Self::WalkingUp => (3, false),
            Self::WalkingDown => (4, false),
            Self::WalkingLeft => (5, true),
            Self::WalkingRight => (5, false),
            Self::Dead => (6, false),
        }
    }
}

/// What the player's hand does during one tick.
#[derive(Clone, Copy, Debug, PartialEq, Eq, Structural)]
pub struct Input {
    /// The cursor, in arena coordinates.
    pub mouse: Vec2,
    pub up: bool,
    pub down: bool,
    pub left: bool,
    pub right: bool,
    /// The attack button is held.
    pub attack_down: bool,
    /// The attack button was let go during this tick.
    pub attack_released: bool,
}

impl Input {
    /// The cursor is in the range that the arithmetic of an update can
    /// take.
    pub open spec fn wf(&self) -> bool {
        self.mouse.within(COORD_MAX as int)
    }
}

/// The direction in which a player at `center` looks at `mouse`: 0 up,
/// 1 down, 2 left, 3 right. Each direction is a quarter of the plane
/// between the diagonals; y grows downward. A cursor on the centre counts
/// as right.
pub open spec fn facing(center: Vec2, mouse: Vec2) -> u8 {
    let dx = mouse.x - center.x;
    let dy = mouse.y - center.y;
    if dy > 0 && -dy < dx && dx <= dy {
        1
    } else if dx < 0 && dx <= dy && dy <= -dx {
        2
    } else if (dx > 0 && -dx <= dy && dy < dx) || (dx == 0 && dy == 0) {
        3
    } else {
        0
    }
}

/// The way that the player walks on one axis in `dt` milliseconds.
pub open spec fn walked(back: bool, forth: bool, dt: u32) -> int {
    (if forth { PLAYER_SPEED * dt } else { 0 }) - (if back { PLAYER_SPEED * dt } else { 0 })
}

/// A coordinate brought back between the arena's edges, the player's size
/// taken off.
pub open spec fn clamped(v: int) -> int {
    if v > ARENA - PLAYER_SIZE {
        ARENA - PLAYER_SIZE
    } else if v < 0 {
        0
    } else {
        v
    }
}

/// The weapon's sheet after a tick on which its sheet `current` was done
/// or not, and the button was held or let go.
pub open spec fn next_weapon_sheet(current: usize, done: bool, input: Input) -> usize {
    if input.attack_down && done {
        WEAPON_CHARGE
    } else if input.attack_released {
        WEAPON_SWING
    } else if done {
        WEAPON_IDLE
    } else {
        current
    }
}

/// The player.
pub struct Player {
    pub pos: Vec2,
    pub size: Vec2,
    pub hp: u32,
    pub max_hp: u32,
    /// When the running charge began, while there is one.
    pub charge_timer: Option<Instant>,
    /// Top left corner of the weapon's rectangle.
    pub weapon_pos: Vec2,
    pub weapon_size: Vec2,
    pub animation_state: PlayerAnmiationState,
    /// One frame counter for each sheet of [`PlayerAnmiationState::sheet`].
    pub animations: Vec<Anmiation>,
    /// The frame counters of the weapon's sheets: idle, charging, swinging.
    pub attack_animations: Vec<Anmiation>,
    /// Index of the weapon's sheet that is shown.
    pub current_attack_animation: usize,
}

impl Player {
    /// Health does not exceed its cap, the sizes are those of every player,
    /// and the position is in range.
    pub open spec fn wf(&self) -> bool {
        &&& self.pos.within(COORD_MAX as int)
        &&& self.size == (Vec2 { x: PLAYER_SIZE, y: PLAYER_SIZE })
        &&& self.weapon_size == (Vec2 { x: WEAPON_WIDTH, y: WEAPON_HEIGHT })
        &&& self.hp <= self.max_hp
        &&& self.animations.len() == 7
        &&& forall|i: int| 0 <= i < 7 ==> (#[trigger] self.animations[i]).wf()
        &&& self.attack_animations.len() == 3
        &&& forall|i: int| 0 <= i < 3 ==> (#[trigger] self.attack_animations[i]).wf()
        &&& self.current_attack_animation < 3
    }

    /// The centre of the player's square.
    pub open spec fn center(&self) -> Vec2 {
        Vec2 { x: (self.pos.x + PLAYER_SIZE / 2) as i64, y: (self.pos.y + PLAYER_SIZE / 2) as i64 }
    }

    /// The part of the player that projectiles hit, as corner and size: the
    /// lower half of the player's square.
    pub open spec fn hit_box(&self) -> (Vec2, Vec2) {
        (
            Vec2 { x: self.pos.x, y: (self.pos.y + PLAYER_SIZE / 2) as i64 },
            Vec2 { x: PLAYER_SIZE, y: (PLAYER_SIZE / 2) as i64 },
        )
    }

    /// The player after a hit: one point of health less, and never less
    /// than none.
    pub open spec fn struck(&self) -> Player {
        Player { hp: if self.hp == 0 { 0u32 } else { (self.hp - 1) as u32 }, ..*self }
    }

    /// The player has no health left.
    pub open spec fn dead(&self) -> bool {
        self.hp == 0
    }

    /// The part of the player that projectiles hit, as corner and size.
    pub fn get_hit_box(&self) -> (hit_box: (Vec2, Vec2))
        requires
            self.wf(),
        ensures
            hit_box == self.hit_box(),
    {
        let pos = Vec2 { x: self.pos.x, y: self.pos.y + self.size.y / 2 };
        let size = Vec2 { x: self.size.x, y: self.size.y / 2 };
        (pos, size)
    }

    /// Takes one point of health, unless none is left.
    pub fn on_hit(&mut self)
        ensures
            *final(self) == old(self).struck(),
            final(self).hp <= old(self).hp,
            old(self).wf() ==> final(self).wf(),
    {
        if self.hp > 0 {
            self.hp -= 1;
        }
    }

    /// Whether no health is left.
    pub fn is_dead(&self) -> (d: bool)
        ensures
            d == self.dead(),
    {
        self.hp == 0
    }

    /// A player at `pos`, at full health, standing, the weapon idle.
    pub fn new(pos: Vec2) -> (p: Player)
        requires
            pos.within(COORD_MAX as int),
        ensures
            p.wf(),
            p.pos == pos,
            p.hp == PLAYER_HEALTH,
            p.max_hp == PLAYER_HEALTH,
            p.charge_timer.is_none(),
            p.weapon_pos == (Vec2 { x: 0, y: 0 }),
            p.animation_state == PlayerAnmiationState::IdleDown,
            p.current_attack_animation == WEAPON_IDLE,
            forall|i: int| 0 <= i < 7 ==> (#[trigger] p.animations[i]).current_frame == 0,
            forall|i: int| 0 <= i < 3 ==> (#[trigger] p.attack_animations[i]).current_frame == 0,
    {
        Player {
            pos,
            size: Vec2 { x: PLAYER_SIZE, y: PLAYER_SIZE },
            hp: PLAYER_HEALTH,
            max_hp: PLAYER_HEALTH,
            charge_timer: None,
            weapon_pos: Vec2 { x: 0, y: 0 },
            weapon_size: Vec2 { x: WEAPON_WIDTH, y: WEAPON_HEIGHT },
            animation_state: PlayerAnmiationState::IdleDown,
            animations: Self::create_animations(),
            attack_animations: Self::create_attack_animations(),
            current_attack_animation: WEAPON_IDLE,
        }
    }

    /// The frame counters of the player's seven sheets: three of four
    /// frames for standing, three of six for walking, one of a single
    /// frame for lying dead; six frames a second, looping.
    pub fn create_animations() -> (sheets: Vec<Anmiation>)
        ensures
            sheets.len() == 7,
            forall|i: int| 0 <= i < 7 ==> (#[trigger] sheets[i]).wf(),
            forall|i: int|
                0 <= i < 7 ==> #[trigger] sheets[i] == (Anmiation {
                    frames: if i < 3 { 4usize } else if i < 6 { 6usize } else { 1usize },
                    current_frame: 0,
                    frame_time_counter: 0,
                    frame_time: 167,
                    looping: true,
                }),
    {
        vec![
            Anmiation::new(4, 167, true),
            Anmiation::new(4, 167, true),
            Anmiation::new(4, 167, true),
            Anmiation::new(6, 167, true),
            Anmiation::new(6, 167, true),
            Anmiation::new(6, 167, true),
            Anmiation::new(1, 167, true),
        ]
    }

    /// The frame counters of the weapon's three sheets: idle (one frame),
    /// charging (three frames, seven a second), swinging (four frames, six
    /// a second); none loops.
    pub fn create_attack_animations() -> (sheets: Vec<Anmiation>)
        ensures
            sheets.len() == 3,
            forall|i: int| 0 <= i < 3 ==> (#[trigger] sheets[i]).wf(),
            sheets[0] == (Anmiation { frames: 1, current_frame: 0, frame_time_counter: 0, frame_time: 100_000, looping: false }),
            sheets[1] == (Anmiation { frames: 3, current_frame: 0, frame_time_counter: 0, frame_time: 143, looping: false }),
            sheets[2] == (Anmiation { frames: 4, current_frame: 0, frame_time_counter: 0, frame_time: 167, looping: false }),
    {
        vec![
            Anmiation::new(1, 100_000, false),
            Anmiation::new(3, 143, false),
            Anmiation::new(4, 167, false),
        ]
    }

    /// Full health, the first cap, and back to the middle of the arena.
    pub fn restart(&mut self)
        ensures
            *final(self) == (Player {
                hp: PLAYER_HEALTH,
                max_hp: PLAYER_HEALTH,
                pos: Vec2 { x: START, y: START },
                ..*old(self)
            }),
            old(self).wf() ==> final(self).wf(),
    {
        self.hp = PLAYER_HEALTH;
        self.max_hp = PLAYER_HEALTH;
        self.pos = Vec2 { x: START, y: START };
    }

    /// The player after a wave: one point of health more; where that is
    /// more than the cap, the cap rises with it.
    pub open spec fn rewarded(&self) -> Player {
        Player {
            hp: (self.hp + 1) as u32,
            max_hp: if self.hp + 1 > self.max_hp { (self.max_hp + 1) as u32 } else { self.max_hp },
            ..*self
        }
    }

    /// Rewards the player for a wave: heals one point, and raises the cap
    /// by one where the player was at full health.
    pub fn end_wave(&mut self)
        requires
            old(self).hp < u32::MAX,
        ensures
            *final(self) == old(self).rewarded(),
            final(self).hp == old(self).hp + 1,
            old(self).hp <= old(self).max_hp ==> final(self).hp <= final(self).max_hp,
            final(self).max_hp <= old(self).max_hp + 1,
            old(self).wf() ==> final(self).wf(),
    {
        self.hp += 1;
        if self.hp > self.max_hp {
            self.max_hp += 1;
        }
    }

    /// The centre of the player's square.
    pub fn get_center(&self) -> (c: Vec2)
        requires
            self.wf(),
        ensures
            c == self.center(),
            c.within(COORD_MAX + PLAYER_SIZE),
    {
        Vec2 { x: self.pos.x + PLAYER_SIZE / 2, y: self.pos.y + PLAYER_SIZE / 2 }
    }

    /// Where the weapon's rectangle is put while the cursor is at `mouse`:
    /// [`WEAPON_REACH`] from the player's centre toward the cursor, then
    /// half the player's size up and to the left.
    pub open spec fn weapon_at(&self, mouse: Vec2) -> Vec2 {
        let held = move_towards_spec(self.center(), mouse, WEAPON_REACH as int);
        Vec2 { x: (held.0 - PLAYER_SIZE / 2) as i64, y: (held.1 - PLAYER_SIZE / 2) as i64 }
    }

    /// Where the player stands after walking for `dt` milliseconds: each
    /// held key moves it on its axis, opposite keys cancel, and the arena's
    /// edges stop it.
    pub open spec fn walked_to(&self, input: Input, dt: u32) -> Vec2 {
        Vec2 {
            x: clamped(self.pos.x + walked(input.left, input.right, dt)) as i64,
            y: clamped(self.pos.y + walked(input.up, input.down, dt)) as i64,
        }
    }

    /// What a living player is shown doing: walking where it moves, else
    /// standing, and looking toward the cursor.
    pub open spec fn shown_as(&self, input: Input, dt: u32) -> PlayerAnmiationState {
        let dir = facing(self.center(), input.mouse);
        if walked(input.left, input.right, dt) != 0 || walked(input.up, input.down, dt) != 0 {
            PlayerAnmiationState::walking_of(dir)
        } else {
            PlayerAnmiationState::idle_of(dir)
        }
    }

    /// Whether the weapon's sheet that is shown has played to its end.
    pub open spec fn weapon_done(&self) -> bool {
        self.attack_animations[self.current_attack_animation as int].done()
    }

    /// Whether a charge begins or goes on during this tick.
    pub open spec fn charges(&self, input: Input) -> bool {
        input.attack_down && self.weapon_done()
    }

    /// Whether this tick's release sends projectiles back: the button was
    /// let go after a charge of more than [`CHARGE_THRESHOLD`]
    /// milliseconds.
    pub open spec fn parries(&self, input: Input, held_for: u64) -> bool {
        &&& !self.charges(input)
        &&& input.attack_released
        &&& self.charge_timer.is_some()
        &&& held_for > CHARGE_THRESHOLD
    }

    /// The start of the running charge after this tick, `reading` being
    /// the clock's reading during it.
    pub open spec fn next_charge(&self, input: Input, reading: Instant) -> Option<Instant> {
        if self.charges(input) {
            if self.charge_timer.is_some() {
                self.charge_timer
            } else {
                Some(reading)
            }
        } else if input.attack_released {
            None
        } else {
            self.charge_timer
        }
    }

    /// What one tick makes of a player and of the projectiles: `pre` and
    /// `pre_butters` before it, `post` and `post_butters` after it. The
    /// running charge has lasted `held_for` milliseconds, and the clock
    /// reads `reading`.
    ///
    /// A dead player is shown dead, and nothing else changes. A living one
    /// aims its weapon at the cursor, walks, charges while the button is
    /// held and the weapon is ready, and swings on release; a swing after
    /// a long enough charge sends back the projectiles under the weapon.
    pub open spec fn stepped(
        pre: Player,
        post: Player,
        input: Input,
        dt: u32,
        pre_butters: Seq<Butter>,
        post_butters: Seq<Butter>,
        held_for: u64,
        reading: Instant,
    ) -> bool {
        let sheet = pre.animation_state.sheet().0 as int;
        let weapon = next_weapon_sheet(pre.current_attack_animation, pre.weapon_done(), input);
        let rewound = if weapon != pre.current_attack_animation {
            pre.attack_animations@.update(
                pre.current_attack_animation as int,
                pre.attack_animations[pre.current_attack_animation as int].rewound(),
            )
        } else {
            pre.attack_animations@
        };
        &&& post.hp == pre.hp
        &&& post.max_hp == pre.max_hp
        &&& post.size == pre.size
        &&& post.weapon_size == pre.weapon_size
        &&& post_butters.len() == pre_butters.len()
        &&& if pre.dead() {
            &&& post.animation_state == PlayerAnmiationState::Dead
            &&& post.pos == pre.pos
            &&& post.weapon_pos == pre.weapon_pos
            &&& post.charge_timer == pre.charge_timer
            &&& post.animations@ == pre.animations@
            &&& post.attack_animations@ == pre.attack_animations@
            &&& post.current_attack_animation == pre.current_attack_animation
            &&& post_butters == pre_butters
        } else {
            &&& post.weapon_pos == pre.weapon_at(input.mouse)
            &&& post.pos == pre.walked_to(input, dt)
            &&& post.animation_state == pre.shown_as(input, dt)
            &&& post.current_attack_animation == weapon
            &&& post.charge_timer == pre.next_charge(input, reading)
            &&& forall|i: int|
                0 <= i < pre_butters.len() ==> #[trigger] post_butters[i] == (if pre.parries(
                    input,
                    held_for,
                ) {
                    parried(pre_butters[i], post.weapon_pos, post.weapon_size, input.mouse, held_for)
                } else {
                    pre_butters[i]
                })
            &&& post.animations@ == pre.animations@.update(
                sheet,
                (if post.animation_state != pre.animation_state {
                    pre.animations[sheet].rewound()
                } else {
                    pre.animations[sheet]
                }).updated(dt),
            )
            &&& post.attack_animations@ == rewound.update(weapon as int, rewound[weapon as int].updated(dt))
        }
    }

    /// What one tick makes of a player and of the projectiles, whatever
    /// the clock reads: what [`Player::stepped`] says for some length of
    /// the running charge and some reading.
    pub open spec fn updated(
        pre: Player,
        post: Player,
        input: Input,
        dt: u32,
        pre_butters: Seq<Butter>,
        post_butters: Seq<Butter>,
    ) -> bool {
        exists|held_for: u64, reading: Instant| #[trigger]
            Player::stepped(pre, post, input, dt, pre_butters, post_butters, held_for, reading)
    }

    /// Sends back, toward `mouse_pos` and with the bonus of a charge of
    /// `charge_time` milliseconds, every projectile under the weapon that
    /// was not sent back before.
    pub fn charge_attack(&self, charge_time: u64, butters: &mut Vec<Butter>, mouse_pos: Vec2)
        requires
            mouse_pos.within(COORD_MAX as int),
            forall|i: int| 0 <= i < old(butters).len() ==> (#[trigger] old(butters)[i]).wf(),
        ensures
            final(butters).len() == old(butters).len(),
            forall|i: int|
                0 <= i < old(butters).len() ==> #[trigger] final(butters)[i] == parried(
                    old(butters)[i],
                    self.weapon_pos,
                    self.weapon_size,
                    mouse_pos,
                    charge_time,
                ),
            forall|i: int| 0 <= i < final(butters).len() ==> (#[trigger] final(butters)[i]).wf(),
    {
        let mut i: usize = 0;
        while i < butters.len()
            invariant
                i <= butters.len(),
                butters.len() == old(butters).len(),
                mouse_pos.within(COORD_MAX as int),
                forall|j: int|
                    0 <= j < i ==> #[trigger] butters[j] == parried(
                        old(butters)[j],
                        self.weapon_pos,
                        self.weapon_size,
                        mouse_pos,
                        charge_time,
                    ),
                forall|j: int| i <= j < butters.len() ==> #[trigger] butters[j] == old(butters)[j],
                forall|j: int| 0 <= j < butters.len() ==> (#[trigger] butters[j]).wf(),
            decreases butters.len() - i,
        {
            let mut b = butters[i];
            if !b.is_reflected() && rect_rect(b.size, b.pos, self.weapon_size, self.weapon_pos) {
                b.change_target(mouse_pos, charge_time);
                butters.set(i, b);
            }
            i += 1;
        }
    }

    /// The direction in which the player looks at `mouse`: 0 up, 1 down,
    /// 2 left, 3 right.
    pub fn facing_dir(&self, mouse: Vec2) -> (dir: u8)
        requires
            self.wf(),
            mouse.within(COORD_MAX as int),
        ensures
            dir == facing(self.center(), mouse),
            dir <= 3,
    {
        let center = self.get_center();
        let dx: i64 = mouse.x - center.x;
        let dy: i64 = mouse.y - center.y;
        if dy > 0 && -dy < dx && dx <= dy {
            1
        } else if dx < 0 && dx <= dy && dy <= -dx {
            2
        } else if (dx > 0 && -dx <= dy && dy < dx) || (dx == 0 && dy == 0) {
            3
        } else {
            0
        }
    }

    /// One tick of the player, on a clock that is handed in: the running
    /// charge, if there is one, has lasted `held_for` milliseconds, and a
    /// charge that begins now begins at `reading`.
    pub fn step(
        &mut self,
        input: &Input,
        dt: u32,
        butters: &mut Vec<Butter>,
        held_for: u64,
        reading: Instant,
    )
        requires
            old(self).wf(),
            input.wf(),
            forall|i: int| 0 <= i < old(butters).len() ==> (#[trigger] old(butters)[i]).wf(),
        ensures
            final(self).wf(),
            Player::stepped(
                *old(self),
                *final(self),
                *input,
                dt,
                old(butters)@,
                final(butters)@,
                held_for,
                reading,
            ),
            forall|i: int| 0 <= i < final(butters).len() ==> (#[trigger] final(butters)[i]).wf(),
            !old(self).dead() ==> 0 <= final(self).pos.x <= ARENA - PLAYER_SIZE,
            !old(self).dead() ==> 0 <= final(self).pos.y <= ARENA - PLAYER_SIZE,
    {
        if self.is_dead() {
            self.animation_state = PlayerAnmiationState::Dead;
            return ;
        }
        let animation_at_start = self.animation_state;
        let attack_animation_start = self.current_attack_animation;
        self.aim_and_walk(input, dt);
        self.work_weapon(input, butters, held_for, reading);
        self.play_frames(dt, animation_at_start, attack_animation_start);
    }

    /// The first part of a living player's tick: puts the weapon toward
    /// the cursor, walks, and picks what the player is shown doing.
    fn aim_and_walk(&mut self, input: &Input, dt: u32)
        requires
            old(self).wf(),
            input.wf(),
        ensures
            final(self).wf(),
            final(self).weapon_pos == old(self).weapon_at(input.mouse),
            final(self).pos == old(self).walked_to(*input, dt),
            final(self).animation_state == old(self).shown_as(*input, dt),
            0 <= final(self).pos.x <= ARENA - PLAYER_SIZE,
            0 <= final(self).pos.y <= ARENA - PLAYER_SIZE,
            final(self).hp == old(self).hp,
            final(self).max_hp == old(self).max_hp,
            final(self).size == old(self).size,
            final(self).weapon_size == old(self).weapon_size,
            final(self).charge_timer == old(self).charge_timer,
            final(self).animations == old(self).animations,
            final(self).attack_animations == old(self).attack_animations,
            final(self).current_attack_animation == old(self).current_attack_animation,
    {
        let held = move_towards(self.get_center(), input.mouse, WEAPON_REACH);
        let player_dir = self.facing_dir(input.mouse);
        self.weapon_pos = Vec2 { x: held.x - PLAYER_SIZE / 2, y: held.y - PLAYER_SIZE / 2 };
        let vel = Vec2 { x: axis_way(input.left, input.right, dt), y: axis_way(input.up, input.down, dt) };
        if vel.x != 0 || vel.y != 0 {
            self.animation_state = PlayerAnmiationState::walking_from_dir(player_dir);
        } else {
            self.animation_state = PlayerAnmiationState::idle_from_dir(player_dir);
        }
        self.pos = Vec2 { x: clamp_to_arena(self.pos.x + vel.x), y: clamp_to_arena(self.pos.y + vel.y) };
    }

    /// The second part of a living player's tick: the weapon charges,
    /// swings or comes to rest, and a swing after a long enough charge
    /// parries.
    fn work_weapon(&mut self, input: &Input, butters: &mut Vec<Butter>, held_for: u64, reading: Instant)
        requires
            old(self).wf(),
            input.wf(),
            forall|i: int| 0 <= i < old(butters).len() ==> (#[trigger] old(butters)[i]).wf(),
        ensures
            final(self).wf(),
            final(self).current_attack_animation == next_weapon_sheet(
                old(self).current_attack_animation,
                old(self).weapon_done(),
                *input,
            ),
            final(self).charge_timer == old(self).next_charge(*input, reading),
            final(butters).len() == old(butters).len(),
            forall|i: int|
                0 <= i < old(butters).len() ==> #[trigger] final(butters)[i] == (if old(self).parries(
                    *input,
                    held_for,
                ) {
                    parried(
                        old(butters)[i],
                        old(self).weapon_pos,
                        old(self).weapon_size,
                        input.mouse,
                        held_for,
                    )
                } else {
                    old(butters)[i]
                }),
            forall|i: int| 0 <= i < final(butters).len() ==> (#[trigger] final(butters)[i]).wf(),
            final(self).pos == old(self).pos,
            final(self).weapon_pos == old(self).weapon_pos,
            final(self).animation_state == old(self).animation_state,
            final(self).hp == old(self).hp,
            final(self).max_hp == old(self).max_hp,
            final(self).size == old(self).size,
            final(self).weapon_size == old(self).weapon_size,
            final(self).animations == old(self).animations,
            final(self).attack_animations == old(self).attack_animations,
    {
        let weapon_done = self.attack_animations[self.current_attack_animation].is_done();
        if input.attack_down && weapon_done {
            if self.charge_timer.is_none() {
                self.charge_timer = Some(reading);
            }
            self.current_attack_animation = WEAPON_CHARGE;
        } else if input.attack_released {
            if self.charge_timer.is_some() && held_for > CHARGE_THRESHOLD {
                self.charge_attack(held_for, butters, input.mouse);
            }
            self.charge_timer = None;
            self.current_attack_animation = WEAPON_SWING;
        } else if weapon_done {
            self.current_attack_animation = WEAPON_IDLE;
        }
    }

    /// The last part of a living player's tick: the sheet that was shown
    /// when the tick began starts over if another is shown now, and plays
    /// on; so do the weapon's sheets.
    fn play_frames(&mut self, dt: u32, animation_at_start: PlayerAnmiationState, attack_animation_start: usize)
        requires
            old(self).wf(),
            attack_animation_start < 3,
        ensures
            final(self).wf(),
            final(self).animations@ == old(self).animations@.update(
                animation_at_start.sheet().0 as int,
                (if old(self).animation_state != animation_at_start {
                    old(self).animations[animation_at_start.sheet().0 as int].rewound()
                } else {
                    old(self).animations[animation_at_start.sheet().0 as int]
                }).updated(dt),
            ),
            final(self).attack_animations@ == ({
                let rewound = if old(self).current_attack_animation != attack_animation_start {
                    old(self).attack_animations@.update(
                        attack_animation_start as int,
                        old(self).attack_animations[attack_animation_start as int].rewound(),
                    )
                } else {
                    old(self).attack_animations@
                };
                rewound.update(
                    old(self).current_attack_animation as int,
                    rewound[old(self).current_attack_animation as int].updated(dt),
                )
            }),
            final(self).pos == old(self).pos,
            final(self).weapon_pos == old(self).weapon_pos,
            final(self).animation_state == old(self).animation_state,
            final(self).hp == old(self).hp,
            final(self).max_hp == old(self).max_hp,
            final(self).size == old(self).size,
            final(self).weapon_size == old(self).weapon_size,
            final(self).charge_timer == old(self).charge_timer,
            final(self).current_attack_animation == old(self).current_attack_animation,
    {
        let (index, _) = animation_at_start.index();
        let mut sheet = self.animations[index];
        if self.animation_state != animation_at_start {
            sheet.reset();
        }
        sheet.update(dt);
        self.animations.set(index, sheet);

        if attack_animation_start != self.current_attack_animation {
            let mut left = self.attack_animations[attack_animation_start];
            left.reset();
            self.attack_animations.set(attack_animation_start, left);
        }
        let mut shown = self.attack_animations[self.current_attack_animation];
        shown.update(dt);
        self.attack_animations.set(self.current_attack_animation, shown);
    }

    /// How long the running charge has lasted, in milliseconds; `None`
    /// while the player does not charge.
    pub fn charge_time(&self) -> (held_for: Option<u64>)
        ensures
            held_for.is_some() == self.charge_timer.is_some(),
    {
        match self.charge_timer {
            Some(begun) => Some(millis_since(&begun)),
            None => None,
        }
    }

    /// One tick of the player: reads the clock, then does what
    /// [`Player::step`] does with the readings.
    pub fn update(&mut self, input: &Input, dt: u32, butters: &mut Vec<Butter>)
        requires
            old(self).wf(),
            input.wf(),
            forall|i: int| 0 <= i < old(butters).len() ==> (#[trigger] old(butters)[i]).wf(),
        ensures
            final(self).wf(),
            Player::updated(*old(self), *final(self), *input, dt, old(butters)@, final(butters)@),
            forall|i: int| 0 <= i < final(butters).len() ==> (#[trigger] final(butters)[i]).wf(),
            !old(self).dead() ==> 0 <= final(self).pos.x <= ARENA - PLAYER_SIZE,
            !old(self).dead() ==> 0 <= final(self).pos.y <= ARENA - PLAYER_SIZE,
    {
        let held_for: u64 = match self.charge_time() {
            Some(ms) => ms,
            None => 0,
        };
        let reading = now();
        self.step(input, dt, butters, held_for, reading);
    }
}

/// The arena's edges hold the player: wherever a living player stands
/// and however long it walks, it ends between the edges; and one that
/// stands at an edge and walks against it stays exactly there.
pub proof fn edges_hold_the_player(player: Player, input: Input, dt: u32)
    ensures
        0 <= player.walked_to(input, dt).x <= ARENA - PLAYER_SIZE,
        0 <= player.walked_to(input, dt).y <= ARENA - PLAYER_SIZE,
        player.pos.x == ARENA - PLAYER_SIZE && input.right && !input.left ==> player.walked_to(input, dt).x
            == ARENA - PLAYER_SIZE,
        player.pos.x == 0 && input.left && !input.right ==> player.walked_to(input, dt).x == 0,
        player.pos.y == ARENA - PLAYER_SIZE && input.down && !input.up ==> player.walked_to(input, dt).y
            == ARENA - PLAYER_SIZE,
        player.pos.y == 0 && input.up && !input.down ==> player.walked_to(input, dt).y == 0,
{
}

/// A hit never drives the player's health below zero, and a reward never
/// lifts it above the cap.
pub proof fn health_stays_in_bounds(player: Player)
    requires
        player.hp <= player.max_hp,
        player.hp < u32::MAX,
    ensures
        0 <= player.struck().hp <= player.hp,
        player.struck().hp <= player.struck().max_hp,
        player.dead() ==> player.struck().hp == 0,
        player.rewarded().hp <= player.rewarded().max_hp,
{
}

/// Computes [`walked`].
fn axis_way(back: bool, forth: bool, dt: u32) -> (way: i64)
    ensures
        way == walked(back, forth, dt),
        -PLAYER_SPEED * dt <= way <= PLAYER_SPEED * dt,
{
    let step: i64 = PLAYER_SPEED * (dt as i64);
    let mut way: i64 = 0;
    if back {
        way -= step;
    }
    if forth {
        way += step;
    }
    way
}

/// Computes [`clamped`].
fn clamp_to_arena(v: i64) -> (c: i64)
    ensures
        c == clamped(v as int),
        0 <= c <= ARENA - PLAYER_SIZE,
{
    if v > ARENA - PLAYER_SIZE {
        ARENA - PLAYER_SIZE
    } else if v < 0 {
        0
    } else {
        v
    }
}

/// What a parry makes of one projectile: one under the weapon that was not
/// sent back before is sent toward the cursor with the bonus of a charge
/// of `charge_time` milliseconds; any other stays as it is.
pub open spec fn parried(b: Butter, weapon_pos: Vec2, weapon_size: Vec2, mouse: Vec2, charge_time: u64) -> Butter {
    if !b.reflected && rect_rect_spec(b.size, b.pos, weapon_size, weapon_pos) {
        b.retargeted(mouse, charge_time)
    } else {
        b
    }
}

} // verus!
