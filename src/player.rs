use vstd::prelude::*;

verus! {

/// Stamina a fresh player starts with.
pub const PLAYER_INIT_POWER: u32 = 20;

/// Downward acceleration per simulation step, in tenths of a cell per step.
pub const GRAVITY: i32 = 2;

/// Velocity above which gravity no longer accelerates the player, in tenths.
pub const MAX_VELOCITY: i32 = 20;

/// Upward impulse of one flap, in tenths of a cell per step.
pub const FLAP_IMPULSE: i32 = 15;

/// Whole cells moved by a velocity given in tenths, truncated toward zero.
pub open spec fn cells(v: int) -> int {
    if v >= 0 {
        v / 10
    } else {
        -((-v) / 10)
    }
}

/// Velocity after gravity has acted for one step.
pub open spec fn next_velocity(v: int) -> int {
    if v < MAX_VELOCITY {
        v + GRAVITY
    } else {
        v
    }
}

/// Height after one step: the old height moved by the new velocity, never above the top row.
pub open spec fn next_y(y: int, v: int) -> int {
    let moved = y + cells(next_velocity(v));
    if moved < 0 {
        0
    } else {
        moved
    }
}

/// Velocity after one flap, saturating at the smallest representable value.
pub open spec fn flapped_velocity(v: int) -> int {
    if v - FLAP_IMPULSE >= i32::MIN {
        v - FLAP_IMPULSE
    } else {
        i32::MIN as int
    }
}

/// The flying sprite. `velocity` is kept in tenths of a cell per simulation step
/// (positive is downward); `y` grows downward from the top row.
pub struct Player {
    pub x: i32,
    pub y: i32,
    pub velocity: i32,
    pub power: u32,
    pub flap: bool,
}

/// The player after one simulation step.
pub open spec fn integrated(p: Player) -> Player {
    Player {
        x: (p.x + 1) as i32,
        y: next_y(p.y as int, p.velocity as int) as i32,
        velocity: next_velocity(p.velocity as int) as i32,
        power: p.power,
        flap: p.flap,
    }
}

/// The player after `n` simulation steps.
pub open spec fn integrated_n(p: Player, n: nat) -> Player
    decreases n,
{
    if n == 0 {
        p
    } else {
        integrated(integrated_n(p, (n - 1) as nat))
    }
}

/// A step is defined for the player when its column and height stay representable.
pub open spec fn can_integrate(p: Player) -> bool {
    &&& p.x < i32::MAX
    &&& i32::MIN <= p.y + cells(next_velocity(p.velocity as int)) <= i32::MAX
}

/// After `n` simulation steps the player stands `n` columns east of where it started.
pub proof fn lemma_integrate_advances_x(p: Player, n: nat)
    requires
        p.x + n <= i32::MAX,
    ensures
        integrated_n(p, n).x == p.x + n,
    decreases n,
{
    if n > 0 {
        lemma_integrate_advances_x(p, (n - 1) as nat);
    }
}

impl Player {
    /// A player at `(x, y)` at rest, with full stamina and not flapping.
    pub fn new(x: i32, y: i32) -> (r: Self)
        ensures
            r.x == x,
            r.y == y,
            r.velocity == 0,
            r.power == PLAYER_INIT_POWER,
            !r.flap,
    {
        Player { x, y, velocity: 0, power: PLAYER_INIT_POWER, flap: false }
    }

    /// One simulation step: gravity (while below the velocity cap), fall by the
    /// truncated velocity, move one column east, and clamp at the top row.
    pub fn update(&mut self)
        requires
            can_integrate(*old(self)),
        ensures
            *final(self) == integrated(*old(self)),
            final(self).x == old(self).x + 1,
            final(self).y >= 0,
            final(self).y == next_y(old(self).y as int, old(self).velocity as int),
            final(self).velocity == next_velocity(old(self).velocity as int),
    {
        if self.velocity < MAX_VELOCITY {
            self.velocity = self.velocity + GRAVITY;
        }
        let fall: i32 = self.velocity / 10;
        self.y = self.y + fall;
        self.x = self.x + 1;
        if self.y < 0 {
            self.y = 0;
        }
    }

    /// Flaps: pushes the player upward and raises the flapping flag, then spends one
    /// unit of stamina. Returns the stamina left, or `None` when there was none to spend.
    pub fn flap(&mut self) -> (r: Option<u32>)
        ensures
            final(self).velocity == flapped_velocity(old(self).velocity as int),
            final(self).flap,
            final(self).x == old(self).x,
            final(self).y == old(self).y,
            old(self).power == 0 ==> r is None && final(self).power == 0,
            old(self).power > 0 ==> r == Some((old(self).power - 1) as u32) && final(self).power
                == old(self).power - 1,
    {
        if self.velocity >= i32::MIN + FLAP_IMPULSE {
            self.velocity = self.velocity - FLAP_IMPULSE;
        } else {
            self.velocity = i32::MIN;
        }
        self.flap = true;
        if self.power > 0 {
            self.power = self.power - 1;
            Some(self.power)
        } else {
            None
        }
    }

    /// Adds `power` to the stamina and returns the new total.
    pub fn power_up(&mut self, power: u32) -> (r: u32)
        requires
            old(self).power + power <= u32::MAX,
        ensures
            final(self).power == old(self).power + power,
            r == final(self).power,
            final(self).x == old(self).x,
            final(self).y == old(self).y,
            final(self).velocity == old(self).velocity,
            final(self).flap == old(self).flap,
    {
        self.power = self.power + power;
        self.power
    }
}

} // verus!
