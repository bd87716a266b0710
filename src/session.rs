use vstd::prelude::*;

use rand::Rng;

use crate::camera::Camera;
use crate::element::{
    obstacle_hits, opening_height, power_up_hits, power_up_reaches, stamina, terrain_hits, terrain_profile,
    Obstacle, Power, PowerUp, Terrain, BASE_OPENING, DISPLAY_HEIGHT, DISPLAY_WIDTH, GAP_HIGH,
    GAP_LOW,
};
use crate::player::{integrated, Player, MAX_VELOCITY, PLAYER_INIT_POWER};

verus! {

/// Time between two simulation steps, in microseconds.
pub const FRAME_DURATION: u64 = 75000;

/// Time after a flap at which the flapping flag is cleared, in microseconds.
pub const FLAP_DURATION: u64 = 150000;

/// Column at which the player starts.
pub const START_X: i32 = 15;

/// Row at which the player starts.
pub const START_Y: i32 = 16;

/// Number of stretches of the course that each hold one power-up.
pub const POWER_UP_GROUPS: usize = 45;

/// Candidate columns tried in each stretch.
pub const POWER_UP_SLOTS: u32 = 10;

/// Width of one stretch of the course.
pub const POWER_UP_SPACING: i32 = 30;

/// Column just before the first candidate column of the first stretch.
pub const POWER_UP_OFFSET: i32 = 17;

/// Lowest row of a power-up.
pub const POWER_UP_LOW: i32 = 5;

/// One past the highest row of a power-up.
pub const POWER_UP_HIGH: i32 = 30;

/// Most stamina a single power-up gives.
pub const MAX_STAMINA: u32 = 15;

/// Last camera column from which the world still scrolls.
pub const WORLD_END: i32 = 2147483000;

/// Relies on rand's `Rng::gen_range` on the thread-local generator: a value drawn from
/// `[low, high)`; it panics when that range is empty.
#[verifier::external_body]
fn thread_range(low: i32, high: i32) -> (r: i32)
    requires
        low < high,
    ensures
        low <= r < high,
{
    rand::thread_rng().gen_range(low..high)
}

/// Relies on rand's `Rng::gen_ratio` on the thread-local generator: `true` with chance
/// `numerator / denominator`, always when the two are equal and never when the numerator
/// is zero; it panics when the denominator is zero or below the numerator.
#[verifier::external_body]
fn thread_ratio(numerator: u32, denominator: u32) -> (r: bool)
    requires
        0 < denominator,
        numerator <= denominator,
    ensures
        numerator == denominator ==> r,
        numerator == 0 ==> !r,
{
    rand::thread_rng().gen_ratio(numerator, denominator)
}

/// The screen the session is on.
#[derive(Debug, Copy, Clone, PartialEq, Eq, Structural)]
pub enum GameState {
    Menu,
    Playing,
    End,
}

/// A key press, as far as the game cares.
#[derive(Debug, Copy, Clone, PartialEq, Eq, Structural)]
pub enum Input {
    Start,
    Quit,
    Flap,
    Restart,
}

/// Adds two times, stopping at the largest representable one.
pub open spec fn time_add(a: u64, b: u64) -> u64 {
    if a + b <= u64::MAX {
        (a + b) as u64
    } else {
        u64::MAX
    }
}

/// A course of power-ups: at most one per stretch, the one of stretch `g` placed at one of
/// its candidate columns and at a row in `[POWER_UP_LOW, POWER_UP_HIGH)`.
pub open spec fn course_ok(s: Seq<PowerUp>) -> bool {
    &&& s.len() <= POWER_UP_GROUPS
    &&& forall|g: int|
        0 <= g < s.len() ==> {
            &&& POWER_UP_SPACING * g + POWER_UP_OFFSET + 1 <= #[trigger] s[g].x
            &&& s[g].x <= POWER_UP_SPACING * g + POWER_UP_OFFSET + POWER_UP_SLOTS
            &&& POWER_UP_LOW <= s[g].y < POWER_UP_HIGH
        }
}

/// Whether a power-up is settled for a player at `(x, y)`: scrolled behind the left
/// edge, or reached.
pub open spec fn resolved(u: PowerUp, x: int, y: int, left: int) -> bool {
    u.x < left || power_up_reaches(u, x, y)
}

/// Stamina that a player at `(x, y)` collects from the power-ups at `lo..hi`.
pub open spec fn gained(s: Seq<PowerUp>, x: int, y: int, lo: int, hi: int) -> int
    decreases hi - lo,
{
    if hi <= lo {
        0
    } else {
        gained(s, x, y, lo, hi - 1) + if power_up_reaches(s[hi - 1], x, y) {
            stamina(s[hi - 1].power) as int
        } else {
            0
        }
    }
}

/// The cursor after scanning `lo..hi` for a player at `(x, y)`: one past the last
/// settled power-up, or `lo`.
pub open spec fn cursor_after(s: Seq<PowerUp>, x: int, y: int, left: int, lo: int, hi: int) -> int
    decreases hi - lo,
{
    if hi <= lo {
        lo
    } else if resolved(s[hi - 1], x, y, left) {
        hi
    } else {
        cursor_after(s, x, y, left, lo, hi - 1)
    }
}

/// A scan never moves the cursor back, nor past the end of what it scanned.
pub proof fn lemma_cursor_monotone(s: Seq<PowerUp>, x: int, y: int, left: int, lo: int, hi: int)
    requires
        lo <= hi,
    ensures
        lo <= cursor_after(s, x, y, left, lo, hi) <= hi,
    decreases hi - lo,
{
    if hi > lo {
        lemma_cursor_monotone(s, x, y, left, lo, hi - 1);
    }
}

/// A power-up collected by a scan lies below the cursor that the scan leaves, so no later
/// scan, which starts at that cursor, collects it again.
pub proof fn lemma_power_up_collected_once(
    s: Seq<PowerUp>,
    x: int,
    y: int,
    left: int,
    lo: int,
    hi: int,
    k: int,
)
    requires
        lo <= k < hi,
        power_up_reaches(s[k], x, y),
    ensures
        k < cursor_after(s, x, y, left, lo, hi),
    decreases hi - lo,
{
    if k < hi - 1 && !resolved(s[hi - 1], x, y, left) {
        lemma_power_up_collected_once(s, x, y, left, lo, hi - 1, k);
    }
}

/// Whether a tick with this much elapsed time runs a simulation step.
pub open spec fn steps(s: State, elapsed: u64) -> bool {
    time_add(s.frame_time, elapsed) > FRAME_DURATION && s.camera.x < WORLD_END
}

/// The player after the tick's simulation step, if one runs.
pub open spec fn moved(s: State, elapsed: u64) -> Player {
    if steps(s, elapsed) {
        integrated(s.player)
    } else {
        s.player
    }
}

/// Whether the tick's key makes the player flap.
pub open spec fn flap_pressed(s: State, key: Option<Input>) -> bool {
    key == Some(Input::Flap) && s.power_remaining
}

/// What one tick of play does to session `s`, giving `t`: the simulation step if one is
/// due, the flapping flag and the flap key, the score for passing the obstacle, the death
/// check, the power-up scan, and the obstacle's replacement once it is behind the left edge.
pub open spec fn played(s: State, t: State, elapsed: u64, key: Option<Input>) -> bool {
    let m = moved(s, elapsed);
    let pressed = flap_pressed(s, key);
    let left = s.camera.left_bound() + if steps(s, elapsed) {
        1int
    } else {
        0
    };
    let scored = m.x > s.obstacle.x && s.new_obstacle;
    let spent = if pressed && s.player.power > 0 {
        s.player.power - 1
    } else {
        s.player.power as int
    };
    let lo = s.power_up_idx as int;
    let len = s.power_up@.len() as int;
    &&& t.player.x == m.x && t.player.y == m.y
    &&& t.camera.x == s.camera.x + if steps(s, elapsed) {
        1int
    } else {
        0
    }
    &&& t.power_up == s.power_up
    &&& t.player.velocity == if pressed {
        crate::player::flapped_velocity(m.velocity as int)
    } else {
        m.velocity as int
    }
    &&& t.player.flap == (pressed || (s.player.flap && time_add(
        s.last_flap,
        elapsed,
    ) <= FLAP_DURATION))
    &&& t.last_flap == if pressed {
        0
    } else {
        time_add(s.last_flap, elapsed)
    }
    &&& t.frame_time == if steps(s, elapsed) {
        0
    } else {
        time_add(s.frame_time, elapsed)
    }
    &&& pressed ==> t.power_remaining == (s.player.power > 0)
    &&& !pressed ==> t.power_remaining == s.power_remaining
    &&& t.terrain == if steps(s, elapsed) {
        s.terrain.rotated(1)
    } else {
        s.terrain
    }
    &&& t.score == if scored && s.score < i32::MAX {
        s.score + 1
    } else {
        s.score as int
    }
    &&& (t.state == GameState::End) == (m.y > DISPLAY_HEIGHT
        || obstacle_hits(s.obstacle, m) || terrain_hits(s.terrain.data@, m))
    &&& t.power_up_idx == cursor_after(
        s.power_up@,
        m.x as int,
        m.y as int,
        left,
        lo,
        len,
    )
    &&& t.player.power == spent + gained(
        s.power_up@,
        m.x as int,
        m.y as int,
        lo,
        len,
    )
    &&& s.obstacle.x <= left ==> {
        &&& t.obstacle.x == s.obstacle.x + DISPLAY_WIDTH
        &&& t.obstacle.height == opening_height(t.score as int)
        &&& GAP_LOW <= t.obstacle.gap < GAP_HIGH
        &&& t.new_obstacle
    }
    &&& s.obstacle.x > left ==> t.obstacle == s.obstacle
        && t.new_obstacle == (s.new_obstacle && !scored)
}

/// Over a run of ticks of play that each run a simulation step, the player moves one
/// column east per tick.
pub proof fn lemma_ticks_advance_player(
    run: Seq<State>,
    elapsed: Seq<u64>,
    keys: Seq<Option<Input>>,
)
    requires
        run.len() >= 1,
        elapsed.len() == run.len() - 1,
        keys.len() == run.len() - 1,
        forall|i: int|
            0 <= i < run.len() - 1 ==> #[trigger] played(run[i], run[i + 1], elapsed[i], keys[i])
                && steps(run[i], elapsed[i]) && run[i].wf(),
    ensures
        run.last().player.x == run[0].player.x + run.len() - 1,
    decreases run.len(),
{
    if run.len() > 1 {
        let n = run.len() - 1;
        let shorter = run.drop_last();
        assert forall|i: int| 0 <= i < shorter.len() - 1 implies #[trigger] played(
            shorter[i],
            shorter[i + 1],
            elapsed.drop_last()[i],
            keys.drop_last()[i],
        ) && steps(shorter[i], elapsed.drop_last()[i]) && shorter[i].wf() by {
            assert(played(run[i], run[i + 1], elapsed[i], keys[i]));
        }
        lemma_ticks_advance_player(shorter, elapsed.drop_last(), keys.drop_last());
        let j = n - 1;
        assert(played(run[j], run[j + 1], elapsed[j], keys[j]));
        assert(shorter.last() == run[j]);
        assert(shorter[0] == run[0]);
    }
}

/// Builds the course of power-ups: in each stretch, candidate column `i` is taken with
/// chance `i / POWER_UP_SLOTS`, the first taken one holds the power-up, at a random row and
/// of a random size.
pub fn init_power_up() -> (r: Vec<PowerUp>)
    ensures
        course_ok(r@),
        r@.len() == POWER_UP_GROUPS,
{
    let mut power_up: Vec<PowerUp> = Vec::with_capacity(POWER_UP_GROUPS);
    let mut group: usize = 0;
    while group < POWER_UP_GROUPS
        invariant
            group <= POWER_UP_GROUPS,
            power_up@.len() == group,
            course_ok(power_up@),
        decreases POWER_UP_GROUPS - group,
    {
        let base: i32 = POWER_UP_SPACING * (group as i32) + POWER_UP_OFFSET;
        let mut slot: u32 = 1;
        let mut placed = false;
        while slot <= POWER_UP_SLOTS && !placed
            invariant
                1 <= slot <= POWER_UP_SLOTS + 1,
                !placed ==> slot <= POWER_UP_SLOTS,
                group < POWER_UP_GROUPS,
                base == POWER_UP_SPACING * group + POWER_UP_OFFSET,
                power_up@.len() == if placed {
                    group + 1
                } else {
                    group as int
                },
                course_ok(power_up@),
            decreases POWER_UP_SLOTS + 1 - slot,
        {
            if thread_ratio(slot, POWER_UP_SLOTS) {
                let y = thread_range(POWER_UP_LOW, POWER_UP_HIGH);
                let roll = thread_range(1, 4);
                power_up.push(PowerUp::new(base + slot as i32, y, Power::from_roll(roll)));
                placed = true;
            }
            slot = slot + 1;
        }
        group = group + 1;
    }
    power_up
}

/// The whole session: the world, the score, the clocks and the screen it is on.
/// Times are in microseconds.
pub struct State {
    pub camera: Camera,
    pub player: Player,
    pub obstacle: Obstacle,
    pub terrain: Terrain,
    pub new_obstacle: bool,
    pub frame_time: u64,
    pub state: GameState,
    pub score: i32,
    pub last_flap: u64,
    pub power_up: Vec<PowerUp>,
    pub power_up_idx: usize,
    pub power_remaining: bool,
}

impl State {
    /// What holds between the parts of a session at every moment.
    pub open spec fn inner_wf(&self) -> bool {
        &&& self.camera.width == DISPLAY_WIDTH
        &&& self.camera.x == self.player.x + (DISPLAY_WIDTH / 2 - START_X)
        &&& DISPLAY_WIDTH / 2 <= self.camera.x <= WORLD_END
        &&& self.camera.left_bound() <= self.obstacle.x <= self.camera.x + DISPLAY_WIDTH
        &&& self.terrain.wf()
        &&& self.power_up_idx <= self.power_up@.len() <= POWER_UP_GROUPS
        &&& self.player.power + MAX_STAMINA * (self.power_up@.len() - self.power_up_idx)
            <= PLAYER_INIT_POWER + MAX_STAMINA * POWER_UP_GROUPS
        &&& 0 <= self.player.y <= DISPLAY_HEIGHT + 2
        &&& self.player.velocity <= MAX_VELOCITY + 1
        &&& self.score >= 0
    }

    /// What holds between ticks: besides the above, the obstacle is still ahead of the
    /// left edge, and a player still playing is not below the bottom row.
    pub open spec fn wf(&self) -> bool {
        &&& self.inner_wf()
        &&& self.camera.left_bound() < self.obstacle.x
        &&& self.state == GameState::Playing ==> self.player.y <= DISPLAY_HEIGHT
    }

    /// A session as it is set up: every part new, the score and the clocks at zero.
    pub open spec fn is_fresh(&self) -> bool {
        &&& self.player.x == START_X
        &&& self.player.y == DISPLAY_HEIGHT / 3
        &&& self.player.velocity == 0
        &&& self.player.power == PLAYER_INIT_POWER
        &&& !self.player.flap
        &&& self.camera.x == DISPLAY_WIDTH / 2
        &&& self.camera.y == DISPLAY_HEIGHT / 2
        &&& self.camera.width == DISPLAY_WIDTH
        &&& self.camera.height == DISPLAY_HEIGHT
        &&& self.obstacle.x == DISPLAY_WIDTH
        &&& self.obstacle.height == BASE_OPENING
        &&& GAP_LOW <= self.obstacle.gap < GAP_HIGH
        &&& self.terrain.data@.len() == DISPLAY_WIDTH
        &&& self.terrain.current == 0
        &&& forall|i: int|
            0 <= i < DISPLAY_WIDTH ==> #[trigger] self.terrain.data@[i] == terrain_profile()[i]
        &&& course_ok(self.power_up@)
        &&& self.power_up@.len() == POWER_UP_GROUPS
        &&& self.power_up_idx == 0
        &&& self.power_remaining
        &&& self.new_obstacle
        &&& self.score == 0
        &&& self.frame_time == 0
        &&& self.last_flap == 0
    }

    /// A new session on the menu screen.
    pub fn new() -> (r: Self)
        ensures
            r.wf(),
            r.is_fresh(),
            r.state == GameState::Menu,
    {
        let camera = Camera::new(
            DISPLAY_WIDTH / 2,
            DISPLAY_HEIGHT / 2,
            DISPLAY_WIDTH,
            DISPLAY_HEIGHT,
        );
        let terrain = Terrain::new(DISPLAY_WIDTH as usize);
        assert forall|i: int| 0 <= i < DISPLAY_WIDTH implies #[trigger] terrain.data@[i]
            == terrain_profile()[i] by {
            assert(terrain.data@[i] == terrain_profile()[i % DISPLAY_WIDTH as int]);
        }
        State {
            camera,
            player: Player::new(START_X, DISPLAY_HEIGHT / 3),
            obstacle: Obstacle::new(DISPLAY_WIDTH, 0),
            terrain,
            new_obstacle: true,
            frame_time: 0,
            state: GameState::Menu,
            score: 0,
            last_flap: 0,
            power_up: init_power_up(),
            power_up_idx: 0,
            power_remaining: true,
        }
    }

    /// Adds the elapsed time to both clocks; when a frame's worth has gathered and the
    /// world can still scroll, runs one simulation step and empties the frame clock.
    /// Returns whether the step ran.
    fn advance_clock(&mut self, elapsed: u64) -> (stepped: bool)
        requires
            old(self).wf(),
            old(self).state == GameState::Playing,
        ensures
            final(self).inner_wf(),
            stepped == (time_add(old(self).frame_time, elapsed) > FRAME_DURATION
                && old(self).camera.x < WORLD_END),
            final(self).last_flap == time_add(old(self).last_flap, elapsed),
            stepped ==> final(self).player == integrated(old(self).player),
            stepped ==> final(self).camera.x == old(self).camera.x + 1,
            stepped ==> final(self).terrain == old(self).terrain.rotated(1),
            stepped ==> final(self).frame_time == 0,
            !stepped ==> final(self).player == old(self).player,
            !stepped ==> final(self).camera == old(self).camera,
            !stepped ==> final(self).terrain == old(self).terrain,
            !stepped ==> final(self).frame_time == time_add(old(self).frame_time, elapsed),
            final(self).camera.width == old(self).camera.width,
            final(self).camera.y == old(self).camera.y,
            final(self).camera.height == old(self).camera.height,
            final(self).obstacle == old(self).obstacle,
            final(self).power_up == old(self).power_up,
            final(self).power_up_idx == old(self).power_up_idx,
            final(self).power_remaining == old(self).power_remaining,
            final(self).new_obstacle == old(self).new_obstacle,
            final(self).score == old(self).score,
            final(self).state == old(self).state,
    {
        self.frame_time = if self.frame_time <= u64::MAX - elapsed {
            self.frame_time + elapsed
        } else {
            u64::MAX
        };
        self.last_flap = if self.last_flap <= u64::MAX - elapsed {
            self.last_flap + elapsed
        } else {
            u64::MAX
        };
        if self.frame_time > FRAME_DURATION && self.camera.x < WORLD_END {
            self.frame_time = 0;
            self.player.update();
            self.camera.update();
            self.terrain.update();
            true
        } else {
            false
        }
    }

    /// Spends a flap when the key is pressed and stamina was not yet found exhausted.
    fn handle_flap(&mut self, key: Option<Input>)
        requires
            old(self).inner_wf(),
        ensures
            final(self).inner_wf(),
            ({
                let pressed = key == Some(Input::Flap) && old(self).power_remaining;
                &&& pressed ==> final(self).player.flap && final(self).last_flap == 0
                &&& pressed ==> final(self).power_remaining == (old(self).player.power > 0)
                &&& pressed && old(self).player.power > 0 ==> final(self).player.power
                    == old(self).player.power - 1
                &&& pressed && old(self).player.power == 0 ==> final(self).player.power == 0
                &&& pressed ==> final(self).player.velocity
                    == crate::player::flapped_velocity(old(self).player.velocity as int)
                &&& pressed ==> final(self).player.x == old(self).player.x && final(self).player.y
                    == old(self).player.y
                &&& !pressed ==> final(self).player == old(self).player && final(self).last_flap
                    == old(self).last_flap && final(self).power_remaining
                    == old(self).power_remaining
            }),
            final(self).camera == old(self).camera,
            final(self).obstacle == old(self).obstacle,
            final(self).terrain == old(self).terrain,
            final(self).power_up == old(self).power_up,
            final(self).power_up_idx == old(self).power_up_idx,
            final(self).new_obstacle == old(self).new_obstacle,
            final(self).score == old(self).score,
            final(self).state == old(self).state,
            final(self).frame_time == old(self).frame_time,
    {
        if matches!(key, Some(Input::Flap)) && self.power_remaining {
            if self.player.flap().is_none() {
                self.power_remaining = false;
            }
            self.last_flap = 0;
        }
    }

    /// Scans the power-ups from the cursor on: each one behind the left edge, or reached
    /// by the player, moves the cursor past it; each one reached gives its stamina.
    pub fn scan_power_ups(&mut self)
        requires
            old(self).inner_wf(),
        ensures
            final(self).inner_wf(),
            ({
                let s = old(self).power_up@;
                let p = old(self).player;
                let left = old(self).camera.left_bound();
                let lo = old(self).power_up_idx as int;
                &&& final(self).power_up_idx == cursor_after(s, p.x as int, p.y as int, left, lo, s.len() as int)
                &&& final(self).player.power == p.power + gained(s, p.x as int, p.y as int, lo, s.len() as int)
            }),
            final(self).power_up_idx >= old(self).power_up_idx,
            final(self).player.x == old(self).player.x,
            final(self).player.y == old(self).player.y,
            final(self).player.velocity == old(self).player.velocity,
            final(self).player.flap == old(self).player.flap,
            final(self).camera == old(self).camera,
            final(self).obstacle == old(self).obstacle,
            final(self).terrain == old(self).terrain,
            final(self).power_up == old(self).power_up,
            final(self).new_obstacle == old(self).new_obstacle,
            final(self).power_remaining == old(self).power_remaining,
            final(self).score == old(self).score,
            final(self).state == old(self).state,
            final(self).frame_time == old(self).frame_time,
            final(self).last_flap == old(self).last_flap,
    {
        let ghost s = self.power_up@;
        let ghost p = self.player;
        let start = self.power_up_idx;
        let len = self.power_up.len();
        let left = self.camera.left();
        let mut k: usize = start;
        while k < len
            invariant
                start <= k <= len,
                len == s.len(),
                s == self.power_up@,
                left == self.camera.left_bound(),
                self.power_up_idx == cursor_after(s, p.x as int, p.y as int, left as int, start as int, k as int),
                start <= self.power_up_idx <= k,
                self.player.power == p.power + gained(s, p.x as int, p.y as int, start as int, k as int),
                self.player.x == p.x,
                self.player.y == p.y,
                self.player.velocity == p.velocity,
                self.player.flap == p.flap,
                self.camera == old(self).camera,
                self.obstacle == old(self).obstacle,
                self.terrain == old(self).terrain,
                self.power_up == old(self).power_up,
                self.new_obstacle == old(self).new_obstacle,
                self.power_remaining == old(self).power_remaining,
                self.score == old(self).score,
                self.state == old(self).state,
                self.frame_time == old(self).frame_time,
                self.last_flap == old(self).last_flap,
                self.player.power + MAX_STAMINA * (len - self.power_up_idx) <= PLAYER_INIT_POWER
                    + MAX_STAMINA * POWER_UP_GROUPS,
            decreases len - k,
        {
            proof {
                lemma_cursor_monotone(s, p.x as int, p.y as int, left as int, start as int, k as int);
            }
            if self.power_up[k].x < left {
                self.power_up_idx = k + 1;
            }
            let hit = self.power_up[k].collision(&self.player);
            assert(hit == power_up_hits(s[k as int], p));
            if hit {
                let value = self.power_up[k].power.value();
                self.player.power_up(value);
                self.power_up_idx = k + 1;
            }
            k = k + 1;
        }
    }

    /// One tick of play: the clocks and the simulation step, the flapping flag, the flap
    /// key, the score, the death check, the power-ups, and the obstacle's replacement.
    pub fn play_state(&mut self, elapsed: u64, key: Option<Input>)
        requires
            old(self).wf(),
            old(self).state == GameState::Playing,
        ensures
            final(self).wf(),
            final(self).state == GameState::Playing || final(self).state == GameState::End,
            final(self).power_up_idx >= old(self).power_up_idx,
            played(*old(self), *final(self), elapsed, key),
    {
        self.advance_clock(elapsed);
        if self.last_flap > FLAP_DURATION && self.player.flap {
            self.player.flap = false;
        }
        self.handle_flap(key);
        if self.player.x > self.obstacle.x && self.new_obstacle {
            if self.score < i32::MAX {
                self.score = self.score + 1;
            }
            self.new_obstacle = false;
        }
        if self.player.y > DISPLAY_HEIGHT || self.obstacle.collision(&self.player)
            || self.terrain.collision(&self.player) {
            self.state = GameState::End;
        }
        self.scan_power_ups();
        if self.obstacle.x <= self.camera.left() {
            self.obstacle = Obstacle::new(self.obstacle.x + self.camera.width, self.score);
            self.new_obstacle = true;
        }
    }

    /// The menu: the start key begins play, the quit key asks to leave. Returns whether
    /// to leave.
    pub fn menu_state(&mut self, key: Option<Input>) -> (quit: bool)
        requires
            old(self).wf(),
        ensures
            final(self).wf(),
            key == Some(Input::Start) ==> final(self).is_fresh() && final(self).state
                == GameState::Playing && !quit,
            key == Some(Input::Quit) ==> quit && *final(self) == *old(self),
            key != Some(Input::Start) && key != Some(Input::Quit) ==> !quit && *final(self)
                == *old(self),
    {
        match key {
            Some(Input::Start) => {
                self.restart();
                false
            },
            Some(Input::Quit) => true,
            _ => false,
        }
    }

    /// The end screen: the restart key begins a new round, the quit key asks to leave.
    /// Returns whether to leave.
    pub fn end_state(&mut self, key: Option<Input>) -> (quit: bool)
        requires
            old(self).wf(),
        ensures
            final(self).wf(),
            key == Some(Input::Restart) ==> final(self).is_fresh() && final(self).state
                == GameState::Playing && !quit,
            key == Some(Input::Quit) ==> quit && *final(self) == *old(self),
            key != Some(Input::Restart) && key != Some(Input::Quit) ==> !quit && *final(self)
                == *old(self),
    {
        match key {
            Some(Input::Restart) => {
                self.restart();
                false
            },
            Some(Input::Quit) => true,
            _ => false,
        }
    }

    /// Handles one frame on whichever screen the session is on, given the time elapsed
    /// since the previous frame and the key pressed, if any. Returns whether to leave.
    pub fn tick(&mut self, elapsed: u64, key: Option<Input>) -> (quit: bool)
        requires
            old(self).wf(),
        ensures
            final(self).wf(),
            old(self).state == GameState::Menu ==> {
                &&& key == Some(Input::Start) ==> final(self).is_fresh() && final(self).state
                    == GameState::Playing && !quit
                &&& key == Some(Input::Quit) ==> quit && *final(self) == *old(self)
                &&& key != Some(Input::Start) && key != Some(Input::Quit) ==> !quit
                    && *final(self) == *old(self)
            },
            old(self).state == GameState::End ==> {
                &&& key == Some(Input::Restart) ==> final(self).is_fresh() && final(self).state
                    == GameState::Playing && !quit
                &&& key == Some(Input::Quit) ==> quit && *final(self) == *old(self)
                &&& key != Some(Input::Restart) && key != Some(Input::Quit) ==> !quit
                    && *final(self) == *old(self)
            },
            old(self).state == GameState::Playing ==> !quit && played(
                *old(self),
                *final(self),
                elapsed,
                key,
            ) && final(self).power_up_idx >= old(self).power_up_idx,
    {
        match self.state {
            GameState::Menu => self.menu_state(key),
            GameState::Playing => {
                self.play_state(elapsed, key);
                false
            },
            GameState::End => self.end_state(key),
        }
    }

    /// Starts a new round: every part of the world is made anew and play begins.
    pub fn restart(&mut self)
        ensures
            final(self).wf(),
            final(self).is_fresh(),
            final(self).state == GameState::Playing,
    {
        *self = State::new();
        self.state = GameState::Playing;
    }
}

} // verus!
