use vstd::prelude::*;

verus! {

/// Velocities are kept in tenths of a cell per physics step.
pub const VELOCITY_SCALE: i32 = 10;

/// Fastest fall speed (2.0 cells per step).
pub const MAX_VELOCITY: i32 = 20;

/// Speed gained from gravity in one physics step (0.2 cells per step).
pub const GRAVITY: i32 = 2;

/// Velocity set by a flap (-2.0 cells per step: upwards).
pub const FLAP_VELOCITY: i32 = -20;

/// The velocity after one gravity step: it grows by `GRAVITY` while below the cap.
pub open spec fn gravity(v: int) -> int {
    if v < MAX_VELOCITY {
        v + GRAVITY
    } else {
        v
    }
}

/// Whole cells moved at velocity `v` (in tenths), truncated toward zero.
pub open spec fn whole_cells(v: int) -> int {
    if v >= 0 {
        v / VELOCITY_SCALE as int
    } else {
        -((-v) / VELOCITY_SCALE as int)
    }
}

/// Height after moving from `y` at velocity `v`, never above the top row.
pub open spec fn fall(y: int, v: int) -> int {
    if y + whole_cells(v) < 0 {
        0
    } else {
        y + whole_cells(v)
    }
}

/// A velocity the player can have: a multiple of `GRAVITY` between a flap and the cap.
pub open spec fn velocity_ok(v: int) -> bool {
    FLAP_VELOCITY <= v <= MAX_VELOCITY && v % GRAVITY as int == 0
}

/// Velocity after `n` gravity steps from `v`.
pub open spec fn gravity_steps(v: int, n: nat) -> int
    decreases n,
{
    if n == 0 {
        v
    } else {
        gravity(gravity_steps(v, (n - 1) as nat))
    }
}

/// Height and velocity after a run of inputs from height `y` and velocity `v`:
/// `true` is a flap, `false` a physics step.
pub open spec fn after_inputs(y: int, v: int, flaps: Seq<bool>) -> (int, int)
    decreases flaps.len(),
{
    if flaps.len() == 0 {
        (y, v)
    } else {
        let (y0, v0) = after_inputs(y, v, flaps.drop_last());
        if flaps.last() {
            (y0, FLAP_VELOCITY as int)
        } else {
            (fall(y0, gravity(v0)), gravity(v0))
        }
    }
}

/// Below the cap, one gravity step adds exactly `GRAVITY` to a velocity the player
/// can have, and the result is again one the player can have.
pub proof fn lemma_gravity_step(v: int)
    requires
        velocity_ok(v),
    ensures
        v < MAX_VELOCITY ==> gravity(v) == v + GRAVITY,
        gravity(v) <= MAX_VELOCITY,
        velocity_ok(gravity(v)),
{
}

/// However many gravity steps are taken, the velocity never exceeds the cap.
pub proof fn lemma_gravity_never_exceeds_cap(v: int, n: nat)
    requires
        velocity_ok(v),
    ensures
        gravity_steps(v, n) <= MAX_VELOCITY,
        velocity_ok(gravity_steps(v, n)),
    decreases n,
{
    if n > 0 {
        lemma_gravity_never_exceeds_cap(v, (n - 1) as nat);
        lemma_gravity_step(gravity_steps(v, (n - 1) as nat));
    }
}

/// From rest, the velocity after `n` gravity steps is `GRAVITY * n` until the cap,
/// which is reached at the tenth step and kept from then on.
pub proof fn lemma_cap_reached_from_rest(n: nat)
    ensures
        gravity_steps(0, n) == if n < 10 {
            GRAVITY * n
        } else {
            MAX_VELOCITY as int
        },
    decreases n,
{
    if n > 0 {
        lemma_cap_reached_from_rest((n - 1) as nat);
    }
}

/// From a height on or below the top row, no run of physics steps and flaps
/// takes the player above it, and the velocity stays one the player can have.
pub proof fn lemma_height_never_negative(y: int, v: int, flaps: Seq<bool>)
    requires
        y >= 0,
        velocity_ok(v),
    ensures
        after_inputs(y, v, flaps).0 >= 0,
        velocity_ok(after_inputs(y, v, flaps).1),
    decreases flaps.len(),
{
    if flaps.len() > 0 {
        lemma_height_never_negative(y, v, flaps.drop_last());
        lemma_gravity_step(after_inputs(y, v, flaps.drop_last()).1);
    }
}

/// The player: a position on the world grid and a vertical velocity.
#[derive(Clone, Copy, Debug, PartialEq, Eq)]
pub struct Player {
    /// Horizontal world position; one cell further each physics step.
    pub x: i32,
    /// Vertical position, row 0 at the top.
    pub y: i32,
    /// Vertical velocity in tenths of a cell per step; negative is upwards.
    pub velocity: i32,
}

impl Player {
    /// The player's invariant: its velocity is one it can have.
    pub open spec fn wf(self) -> bool {
        velocity_ok(self.velocity as int)
    }

    /// Room left for one physics step without leaving the `i32` range.
    pub open spec fn can_step(self) -> bool {
        &&& self.x < i32::MAX
        &&& self.velocity > i32::MIN
        &&& i32::MIN <= self.y + whole_cells(gravity(self.velocity as int)) <= i32::MAX
    }

    /// The player after one physics step.
    pub open spec fn stepped(self) -> Player {
        Player {
            x: (self.x + 1) as i32,
            y: fall(self.y as int, gravity(self.velocity as int)) as i32,
            velocity: gravity(self.velocity as int) as i32,
        }
    }

    /// The player after a flap.
    pub open spec fn flapped(self) -> Player {
        Player { velocity: FLAP_VELOCITY, ..self }
    }

    /// A player at rest at `(x, y)`.
    pub fn new(x: i32, y: i32) -> (r: Player)
        ensures
            r == (Player { x, y, velocity: 0 }),
            r.wf(),
    {
        Player { x, y, velocity: 0 }
    }

    /// One physics step: gravity, then the vertical move, one cell to the right,
    /// and the height clamped at the top row.
    pub fn move_and_gravity(&mut self)
        requires
            old(self).can_step(),
        ensures
            *final(self) == old(self).stepped(),
            old(self).wf() ==> final(self).wf(),
            old(self).velocity < MAX_VELOCITY ==> final(self).velocity == old(self).velocity + GRAVITY,
            old(self).wf() ==> final(self).velocity <= MAX_VELOCITY,
            final(self).x == old(self).x + 1,
            final(self).y >= 0,
    {
        if self.velocity < MAX_VELOCITY {
            self.velocity = self.velocity + GRAVITY;
        }
        let cells: i32 = if self.velocity >= 0 {
            self.velocity / VELOCITY_SCALE
        } else {
            -((-self.velocity) / VELOCITY_SCALE)
        };
        assert(cells == whole_cells(self.velocity as int));
        self.y = self.y + cells;
        self.x = self.x + 1;
        if self.y < 0 {
            self.y = 0;
        }
    }

    /// A flap: the velocity becomes `FLAP_VELOCITY` whatever it was.
    pub fn flap(&mut self)
        ensures
            *final(self) == old(self).flapped(),
            final(self).velocity == FLAP_VELOCITY,
            final(self).x == old(self).x,
            final(self).y == old(self).y,
            final(self).wf(),
    {
        self.velocity = FLAP_VELOCITY;
    }
}

} // verus!
