use vstd::prelude::*;
use crate::player::Player;
use crate::SCREEN_HEIGHT;
use bracket_lib::prelude::RandomNumberGenerator;

verus! {

/// Lowest row a gap can be centred on.
pub const GAP_MIN: i32 = 10;

/// Rows from `GAP_MAX` down are never a gap's centre.
pub const GAP_MAX: i32 = SCREEN_HEIGHT - 10;

/// Gap size at score 0.
pub const START_GAP_SIZE: i32 = 20;

/// The gap never shrinks below this size.
pub const MIN_GAP_SIZE: i32 = 2;

/// Gap size for a given score: one less per point scored, but never below `MIN_GAP_SIZE`.
pub open spec fn gap_size(score: int) -> int {
    if START_GAP_SIZE - score < MIN_GAP_SIZE {
        MIN_GAP_SIZE as int
    } else {
        START_GAP_SIZE - score
    }
}

/// For every score from 0 up the gap size is `max(MIN_GAP_SIZE, START_GAP_SIZE - score)`,
/// so never below `MIN_GAP_SIZE` nor above `START_GAP_SIZE`, and it never grows as the
/// score does.
pub proof fn lemma_gap_size_floor(score: int, later: int)
    requires
        0 <= score <= later,
    ensures
        gap_size(score) == if START_GAP_SIZE - score > MIN_GAP_SIZE {
            START_GAP_SIZE - score
        } else {
            MIN_GAP_SIZE as int
        },
        MIN_GAP_SIZE <= gap_size(score) <= START_GAP_SIZE,
        gap_size(later) <= gap_size(score),
{
}

/// Relies on bracket-random's `RandomNumberGenerator::new` and `range`: a freshly
/// seeded generator draws from `[lo, hi)`, `lo` included, `hi` excluded; `range`
/// panics unless `lo < hi`.
#[verifier::external_body]
fn random_in(lo: i32, hi: i32) -> (r: i32)
    requires
        lo < hi,
    ensures
        lo <= r < hi,
{
    RandomNumberGenerator::new().range(lo, hi)
}

/// A wall across the playfield at world column `x`, open around row `gap_y`.
#[derive(Clone, Copy, Debug, PartialEq, Eq)]
pub struct Obstacle {
    /// World column of the wall.
    pub x: i32,
    /// Row at the centre of the gap.
    pub gap_y: i32,
    /// Size of the gap; it reaches `size / 2` rows either side of `gap_y`.
    pub size: i32,
}

impl Obstacle {
    /// The obstacle's invariant: the gap is centred on an allowed row and not too small.
    pub open spec fn wf(self) -> bool {
        &&& GAP_MIN <= self.gap_y < GAP_MAX
        &&& MIN_GAP_SIZE <= self.size
    }

    /// First row of the gap.
    pub open spec fn gap_top(self) -> int {
        self.gap_y - self.size / 2
    }

    /// Last row of the gap.
    pub open spec fn gap_bottom(self) -> int {
        self.gap_y + self.size / 2
    }

    /// Whether a player at `p` hits the wall: same column, and outside the gap.
    pub open spec fn collides(self, p: Player) -> bool {
        self.x == p.x && (p.y < self.gap_top() || p.y > self.gap_bottom())
    }

    /// Whether the wall is drawn on `row`: the playfield rows above the gap's top,
    /// and those from the gap's bottom row down.
    pub open spec fn is_wall(self, row: int) -> bool {
        &&& 0 <= row < SCREEN_HEIGHT
        &&& (row < self.gap_top() || row >= self.gap_bottom())
    }

    /// A collision needs the same column and a row outside the gap: a player on any
    /// row from the gap's top to its bottom, or in another column, never collides.
    pub proof fn lemma_collision_outside_gap(self, p: Player)
        ensures
            self.collides(p) <==> (self.x == p.x && !(self.gap_top() <= p.y <= self.gap_bottom())),
            self.gap_top() <= p.y <= self.gap_bottom() ==> !self.collides(p),
            self.x != p.x ==> !self.collides(p),
    {
    }

    /// The obstacle at column `x` for `score`, with its gap centred on `gap_y`.
    pub fn with_gap(x: i32, gap_y: i32, score: i32) -> (r: Obstacle)
        requires
            START_GAP_SIZE - score <= i32::MAX,
        ensures
            r.x == x,
            r.gap_y == gap_y,
            r.size == gap_size(score as int),
            r.size >= MIN_GAP_SIZE,
            GAP_MIN <= gap_y < GAP_MAX ==> r.wf(),
    {
        let shrunk: i32 = START_GAP_SIZE - score;
        let size: i32 = if shrunk < MIN_GAP_SIZE {
            MIN_GAP_SIZE
        } else {
            shrunk
        };
        Obstacle { x, gap_y, size }
    }

    /// A new obstacle at column `x` for `score`, with its gap centred on a random row
    /// of `[GAP_MIN, GAP_MAX)`.
    pub fn new(x: i32, score: i32) -> (r: Obstacle)
        requires
            START_GAP_SIZE - score <= i32::MAX,
        ensures
            r.x == x,
            r.size == gap_size(score as int),
            r.wf(),
    {
        let gap_y = random_in(GAP_MIN, GAP_MAX);
        Obstacle::with_gap(x, gap_y, score)
    }

    /// Whether the player hits this obstacle.
    pub fn collision(&self, player: &Player) -> (r: bool)
        requires
            self.wf(),
        ensures
            r == self.collides(*player),
    {
        let half: i32 = self.size / 2;
        self.x == player.x && (player.y < self.gap_y - half || player.y > self.gap_y + half)
    }

    /// Screen column of the obstacle when the player's world column is `player_x`.
    pub fn screen_x(&self, player_x: i32) -> (r: i32)
        requires
            i32::MIN <= self.x - player_x <= i32::MAX,
        ensures
            r == self.x - player_x,
    {
        self.x - player_x
    }

    /// The rows on which the wall is drawn, top to bottom.
    pub fn wall_rows(&self) -> (r: Vec<i32>)
        requires
            self.wf(),
        ensures
            forall|i: int| 0 <= i < r@.len() ==> self.is_wall(r@[i] as int),
            forall|i: int, j: int| 0 <= i < j < r@.len() ==> r@[i] < r@[j],
            forall|row: i32| self.is_wall(row as int) ==> r@.contains(row),
    {
        let half: i32 = self.size / 2;
        let top: i32 = self.gap_y - half;
        let bottom: i32 = self.gap_y + half;
        let mut rows: Vec<i32> = Vec::new();
        let mut row: i32 = 0;
        while row < SCREEN_HEIGHT
            invariant
                0 <= row <= SCREEN_HEIGHT,
                top == self.gap_top(),
                bottom == self.gap_bottom(),
                forall|i: int| 0 <= i < rows@.len() ==> self.is_wall(rows@[i] as int),
                forall|i: int| 0 <= i < rows@.len() ==> rows@[i] < row,
                forall|i: int, j: int| 0 <= i < j < rows@.len() ==> rows@[i] < rows@[j],
                forall|w: i32| 0 <= w < row && self.is_wall(w as int) ==> rows@.contains(w),
            decreases SCREEN_HEIGHT - row,
        {
            let ghost before = rows@;
            if row < top || row >= bottom {
                rows.push(row);
            }
            proof {
                assert forall|w: i32| 0 <= w < row + 1 && self.is_wall(w as int) implies rows@.contains(w) by {
                    if w < row {
                        assert(before.contains(w));
                        let k = choose|k: int| 0 <= k < before.len() && before[k] == w;
                        assert(rows@[k] == w);
                    } else {
                        assert(rows@[rows@.len() - 1] == row);
                    }
                }
            }
            row = row + 1;
        }
        rows
    }
}

} // verus!
