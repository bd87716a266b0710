use vstd::prelude::*;

use crate::camera::half_width;
use crate::player::Player;

verus! {

/// Width of the playfield in cells.
pub const DISPLAY_WIDTH: i32 = 60;

/// Height of the playfield in cells.
pub const DISPLAY_HEIGHT: i32 = 50;

/// Narrowest opening an obstacle can have.
pub const MIN_OPENING: i32 = 2;

/// Opening of an obstacle met with a score of zero.
pub const BASE_OPENING: i32 = 20;

/// Lowest gap centre an obstacle can have.
pub const GAP_LOW: i32 = 10;

/// One past the highest gap centre an obstacle can have.
pub const GAP_HIGH: i32 = 40;

/// Relies on bracket-random's `RandomNumberGenerator::range`, which draws from the
/// half-open range `[min, max)` and panics when that range is empty.
#[verifier::external_body]
fn bracket_range(min: i32, max: i32) -> (r: i32)
    requires
        min < max,
    ensures
        min <= r < max,
{
    let mut random = bracket_lib::prelude::RandomNumberGenerator::new();
    random.range(min, max)
}

/// Height of the opening of an obstacle built at a given score: it shrinks as the
/// score grows, never below `MIN_OPENING`.
pub open spec fn opening_height(score: int) -> int {
    if BASE_OPENING - score > MIN_OPENING {
        BASE_OPENING - score
    } else {
        MIN_OPENING as int
    }
}

/// A column of wall with one opening, centred at `gap`, `height` cells tall.
pub struct Obstacle {
    pub x: i32,
    pub gap: i32,
    pub height: i32,
}

/// Whether the obstacle stops the player: same column, and outside the opening.
pub open spec fn obstacle_hits(o: Obstacle, p: Player) -> bool {
    let half = half_width(o.height as int);
    p.x == o.x && (p.y > o.gap + half || p.y < o.gap - half)
}

/// A player standing in the centre of the opening passes; one a cell beyond its lower
/// edge is stopped; a player in another column is never stopped.
pub proof fn lemma_obstacle_opening(o: Obstacle, p: Player)
    requires
        o.height >= MIN_OPENING,
    ensures
        p.x == o.x && p.y == o.gap ==> !obstacle_hits(o, p),
        p.x == o.x && p.y == o.gap + half_width(o.height as int) + 1 ==> obstacle_hits(o, p),
        p.x != o.x ==> !obstacle_hits(o, p),
{
}

impl Obstacle {
    /// An obstacle at column `x` whose opening is centred at `gap`, sized for `score`.
    pub fn with_gap(x: i32, score: i32, gap: i32) -> (r: Self)
        requires
            score >= BASE_OPENING - i32::MAX,
        ensures
            r.x == x,
            r.gap == gap,
            r.height == opening_height(score as int),
            r.height >= MIN_OPENING,
    {
        let height: i32 = if score < BASE_OPENING - MIN_OPENING {
            BASE_OPENING - score
        } else {
            MIN_OPENING
        };
        Obstacle { x, gap, height }
    }

    /// An obstacle at column `x`, sized for `score`, with its opening centred at a
    /// random row in `[GAP_LOW, GAP_HIGH)`.
    pub fn new(x: i32, score: i32) -> (r: Self)
        requires
            score >= BASE_OPENING - i32::MAX,
        ensures
            r.x == x,
            GAP_LOW <= r.gap < GAP_HIGH,
            r.height == opening_height(score as int),
            r.height >= MIN_OPENING,
    {
        let gap = bracket_range(GAP_LOW, GAP_HIGH);
        Obstacle::with_gap(x, score, gap)
    }

    /// Whether the player hits the wall above or below the opening.
    pub fn collision(&self, player: &Player) -> (r: bool)
        ensures
            r == obstacle_hits(*self, *player),
    {
        let half = (self.height / 2) as i64;
        let gap = self.gap as i64;
        let y = player.y as i64;
        self.x == player.x && (y > gap + half || y < gap - half)
    }
}

/// Ground heights of one period of the terrain's wave, one per column.
pub open spec fn terrain_profile() -> Seq<u8> {
    seq![
        6u8, 7, 7, 8, 8, 9, 9, 9, 10, 10, 10, 11, 11, 11, 11, 11, 11, 11, 11, 11,
        10, 10, 10, 9, 9, 9, 8, 8, 7, 7, 6, 5, 5, 4, 4, 4, 3, 3, 2, 2,
        2, 1, 1, 1, 1, 1, 1, 1, 1, 1, 2, 2, 2, 3, 3, 4, 4, 4, 5, 5,
    ]
}

/// Ground height of column `i` of the wave.
fn profile_height(i: usize) -> (r: u8)
    requires
        i < DISPLAY_WIDTH,
    ensures
        r == terrain_profile()[i as int],
{
    let table: [u8; 60] = [
        6, 7, 7, 8, 8, 9, 9, 9, 10, 10, 10, 11, 11, 11, 11, 11, 11, 11, 11, 11,
        10, 10, 10, 9, 9, 9, 8, 8, 7, 7, 6, 5, 5, 4, 4, 4, 3, 3, 2, 2,
        2, 1, 1, 1, 1, 1, 1, 1, 1, 1, 2, 2, 2, 3, 3, 4, 4, 4, 5, 5,
    ];
    assert(table@ =~= terrain_profile());
    table[i]
}

/// The ground: a ring of column heights and the column that is drawn first.
pub struct Terrain {
    pub data: Vec<u8>,
    pub current: usize,
}

/// Whether the player has reached the ground below its world column. The ground
/// height is looked up by world column, whatever the rotation.
pub open spec fn terrain_hits(data: Seq<u8>, p: Player) -> bool {
    p.y >= DISPLAY_HEIGHT - data[p.x as int % data.len() as int]
}

/// Rotating the ground changes only which column is drawn first, never whether a
/// player at a given world column touches it; at column zero the first height decides.
pub proof fn lemma_rotation_keeps_collision(t: Terrain, turns: nat, p: Player)
    requires
        t.wf(),
    ensures
        terrain_hits(t.rotated(turns).data@, p) == terrain_hits(t.data@, p),
        p.x == 0 ==> terrain_hits(t.data@, p) == (p.y >= DISPLAY_HEIGHT - t.data@[0]),
{
}

impl Terrain {
    /// The ring is not empty and the cursor lies in it.
    pub open spec fn wf(&self) -> bool {
        &&& self.data@.len() > 0
        &&& self.current < self.data@.len()
    }

    /// The ground after `turns` rotations.
    pub open spec fn rotated(&self, turns: nat) -> Terrain {
        Terrain {
            data: self.data,
            current: ((self.current + turns) % (self.data@.len() as int)) as usize,
        }
    }

    /// Ground of `size` columns following the wave, with the cursor at the first column.
    pub fn new(size: usize) -> (r: Self)
        requires
            size > 0,
        ensures
            r.wf(),
            r.data@.len() == size,
            r.current == 0,
            forall|i: int|
                0 <= i < size ==> #[trigger] r.data@[i] == terrain_profile()[i % DISPLAY_WIDTH as int],
    {
        let mut terrain: Vec<u8> = Vec::with_capacity(size);
        let mut i: usize = 0;
        let mut col: usize = 0;
        while i < size
            invariant
                i <= size,
                col < DISPLAY_WIDTH,
                col == (i as int) % (DISPLAY_WIDTH as int),
                terrain@.len() == i,
                forall|j: int|
                    0 <= j < i ==> #[trigger] terrain@[j] == terrain_profile()[j % DISPLAY_WIDTH as int],
            decreases size - i,
        {
            terrain.push(profile_height(col));
            i = i + 1;
            col = if col + 1 == DISPLAY_WIDTH as usize {
                0
            } else {
                col + 1
            };
        }
        Terrain { data: terrain, current: 0 }
    }

    /// Scrolls the ground by one column, wrapping at the end of the ring.
    pub fn update(&mut self)
        requires
            old(self).wf(),
        ensures
            final(self).wf(),
            *final(self) == old(self).rotated(1),
            final(self).data@ == old(self).data@,
    {
        let len = self.data.len();
        proof {
            let n = len as int;
            if self.current + 1 == n {
                vstd::arithmetic::div_mod::lemma_mod_self_0(n);
            } else {
                vstd::arithmetic::div_mod::lemma_small_mod((self.current + 1) as nat, n as nat);
            }
        }
        if self.current == len - 1 {
            self.current = 0;
        } else {
            self.current = self.current + 1;
        }
    }

    /// Whether the player touches the ground below its world column.
    pub fn collision(&self, player: &Player) -> (r: bool)
        requires
            self.wf(),
        ensures
            r == terrain_hits(self.data@, *player),
    {
        let len = self.data.len();
        let x: usize = if player.x >= 0 {
            (player.x as usize) % len
        } else {
            let a: u64 = (0 - player.x as i64) as u64;
            let back: usize = (a % (len as u64)) as usize;
            proof {
                let n = len as int;
                let q = (a as int) / n;
                vstd::arithmetic::div_mod::lemma_fundamental_div_mod(a as int, n);
                let b = back as int;
                let x = player.x as int;
                assert(b == (a as int) % n);
                assert(x == (-q) * n - b && x == (-q - 1) * n + (n - b)) by (nonlinear_arith)
                    requires
                        a as int == n * q + b,
                        x == -(a as int),
                ;
                if back == 0 {
                    vstd::arithmetic::div_mod::lemma_fundamental_div_mod_converse(
                        player.x as int,
                        n,
                        -q,
                        0,
                    );
                } else {
                    vstd::arithmetic::div_mod::lemma_fundamental_div_mod_converse(
                        player.x as int,
                        n,
                        -q - 1,
                        n - back,
                    );
                }
            }
            if back == 0 {
                0
            } else {
                len - back
            }
        };
        player.y as i64 >= DISPLAY_HEIGHT as i64 - self.data[x] as i64
    }
}

/// The three sizes of power-up.
#[derive(Debug, Copy, Clone, PartialEq, Eq, Structural)]
pub enum Power {
    Low,
    Med,
    High,
}

/// Stamina that a power-up of each size gives.
pub open spec fn stamina(p: Power) -> nat {
    match p {
        Power::Low => 5,
        Power::Med => 10,
        Power::High => 15,
    }
}

impl Power {
    /// Stamina that this size of power-up gives.
    pub fn value(&self) -> (r: u32)
        ensures
            r == stamina(*self),
    {
        match self {
            Power::Low => 5,
            Power::Med => 10,
            Power::High => 15,
        }
    }

    /// The size named by a roll of one, two or three (anything else counts as three).
    pub fn from_roll(roll: i32) -> (r: Power)
        ensures
            roll == 1 ==> r == Power::Low,
            roll == 2 ==> r == Power::Med,
            roll != 1 && roll != 2 ==> r == Power::High,
    {
        if roll == 1 {
            Power::Low
        } else if roll == 2 {
            Power::Med
        } else {
            Power::High
        }
    }
}

/// A collectible that restores stamina, centred at `(x, y)`.
pub struct PowerUp {
    pub power: Power,
    pub x: i32,
    pub y: i32,
}

/// Whether the cell `(x, y)` lies in the 3x3 box around the power-up.
pub open spec fn power_up_reaches(u: PowerUp, x: int, y: int) -> bool {
    u.x - 1 <= x <= u.x + 1 && u.y - 1 <= y <= u.y + 1
}

/// Whether the player stands in the 3x3 box around the power-up.
pub open spec fn power_up_hits(u: PowerUp, p: Player) -> bool {
    power_up_reaches(u, p.x as int, p.y as int)
}

impl PowerUp {
    /// A power-up of size `power` centred at `(x, y)`.
    pub fn new(x: i32, y: i32, power: Power) -> (r: Self)
        ensures
            r.x == x,
            r.y == y,
            r.power == power,
    {
        PowerUp { power, x, y }
    }

    /// Whether the player stands in the 3x3 box around the power-up.
    pub fn collision(&self, player: &Player) -> (r: bool)
        ensures
            r == power_up_hits(*self, *player),
    {
        let px = player.x as i64;
        let py = player.y as i64;
        let x = self.x as i64;
        let y = self.y as i64;
        py >= y - 1 && px >= x - 1 && py <= y + 1 && px <= x + 1
    }
}

} // verus!
