//! The snake: an ordered sequence of segments, head first, moving on the
//! board's glyph coordinates. A horizontal step covers two columns and a
//! vertical step one row, because a terminal glyph cell is twice as wide as
//! it is tall; reaching a wall coordinate teleports the head to the opposite
//! edge.

use vstd::prelude::*;

verus! {

/// Hard cap on the number of segments; reaching it wins the round.
pub const SNAKE_CAP: usize = 81;

/// Facing of a segment; only the head's facing steers the snake.
#[derive(Clone, Copy, Debug, PartialEq, Eq, Structural)]
pub enum Direction {
    Left,
    Right,
    Up,
    Down,
}

impl Direction {
    /// Numeric code of a direction; opposite pairs have the two fixed sums.
    pub open spec fn spec_int(self) -> int {
        match self {
            Direction::Left => 1,
            Direction::Right => 2,
            Direction::Up => 3,
            Direction::Down => 4,
        }
    }

    /// Numeric code of a direction, used for the symmetric-sum reversal test.
    pub fn to_int(&self) -> (n: i16)
        ensures
            n as int == self.spec_int(),
    {
        match self {
            Direction::Left => 1,
            Direction::Right => 2,
            Direction::Up => 3,
            Direction::Down => 4,
        }
    }
}

/// Whether `a` and `b` are direct opposites (up/down or left/right).
pub open spec fn opposite(a: Direction, b: Direction) -> bool {
    ||| (a == Direction::Up && b == Direction::Down)
    ||| (a == Direction::Down && b == Direction::Up)
    ||| (a == Direction::Left && b == Direction::Right)
    ||| (a == Direction::Right && b == Direction::Left)
}

/// Whether a turn request towards `want` changes a head facing `cur`: a
/// repeat of the current facing is a no-op and a direct reversal is illegal.
pub open spec fn turn_allowed(cur: Direction, want: Direction) -> bool {
    want != cur && !opposite(cur, want)
}

/// One body segment: a position in glyph coordinates plus a facing. Only the
/// head's facing is meaningful; trailing segments keep one for uniformity.
#[derive(Clone, Copy, Debug, PartialEq, Eq, Structural)]
pub struct Segment {
    pub x: i16,
    pub y: i16,
    pub direction: Direction,
}

/// Playable horizontal coordinates: even columns between the walls at 0/54.
pub open spec fn x_in_play(x: int) -> bool {
    2 <= x <= 52 && x % 2 == 0
}

/// Playable vertical coordinates: rows between the walls at 0/23.
pub open spec fn y_in_play(y: int) -> bool {
    1 <= y <= 22
}

/// Whether a segment sits inside the playable interior.
pub open spec fn seg_in_play(s: Segment) -> bool {
    x_in_play(s.x as int) && y_in_play(s.y as int)
}

/// Whether two segments occupy the same position.
pub open spec fn same_pos(a: Segment, b: Segment) -> bool {
    a.x == b.x && a.y == b.y
}

/// The head moved one step along its facing, before any wall handling.
pub open spec fn stepped(h: Segment) -> Segment {
    match h.direction {
        Direction::Up => Segment { x: h.x, y: (h.y - 1) as i16, direction: h.direction },
        Direction::Down => Segment { x: h.x, y: (h.y + 1) as i16, direction: h.direction },
        Direction::Left => Segment { x: (h.x - 2) as i16, y: h.y, direction: h.direction },
        Direction::Right => Segment { x: (h.x + 2) as i16, y: h.y, direction: h.direction },
    }
}

/// Whether a freshly stepped head stands on a wall coordinate.
pub open spec fn wraps(s: Segment) -> bool {
    s.x == 0 || s.x == 54 || s.y == 0 || s.y == 23
}

/// Wall handling: a head on a wall coordinate teleports to the opposite edge.
pub open spec fn wrap_seg(s: Segment) -> Segment {
    let x = if s.x == 0 {
        52
    } else if s.x == 54 {
        2
    } else {
        s.x
    };
    let y = if s.y == 0 {
        22
    } else if s.y == 23 {
        1
    } else {
        s.y
    };
    Segment { x, y, direction: s.direction }
}

/// The snake body: segments in order, the head at index 0.
pub struct Snake {
    pub segs: Vec<Segment>,
}

impl Snake {
    /// Structural soundness: at least head and tail, at most the cap, and
    /// every segment inside the playable interior.
    pub open spec fn wf(self) -> bool {
        &&& 2 <= self.segs@.len() <= SNAKE_CAP as int
        &&& forall|i: int| 0 <= i < self.segs@.len() ==> seg_in_play(#[trigger] self.segs@[i])
    }

    /// The head segment.
    pub open spec fn head(self) -> Segment {
        self.segs@[0]
    }

    /// Whether the head shares its position with a trailing segment, the
    /// not-yet-settled last slot excluded.
    pub open spec fn spec_self_collision(self) -> bool {
        exists|i: int|
            1 <= i < self.segs@.len() - 1 && same_pos(#[trigger] self.segs@[i], self.head())
    }

    /// The fixed four-segment starting pose, facing right.
    pub fn start_pose() -> (s: Snake)
        ensures
            s.wf(),
            s.segs@.len() == 4,
            s.segs@[0] == (Segment { x: 6, y: 10, direction: Direction::Right }),
            s.segs@[1] == (Segment { x: 4, y: 10, direction: Direction::Right }),
            s.segs@[2] == (Segment { x: 2, y: 10, direction: Direction::Right }),
            s.segs@[3] == (Segment { x: 4, y: 4, direction: Direction::Right }),
    {
        let mut segs: Vec<Segment> = Vec::new();
        segs.push(Segment { x: 6, y: 10, direction: Direction::Right });
        segs.push(Segment { x: 4, y: 10, direction: Direction::Right });
        segs.push(Segment { x: 2, y: 10, direction: Direction::Right });
        segs.push(Segment { x: 4, y: 4, direction: Direction::Right });
        Snake { segs }
    }

    /// Number of segments.
    pub fn length(&self) -> (n: usize)
        ensures
            n == self.segs@.len(),
    {
        self.segs.len()
    }

    /// One movement step: every trailing segment takes its predecessor's
    /// place, then the head advances along its facing and wraps at a wall.
    /// Returns whether the head wrapped, so the caller can levy the penalty.
    pub fn advance(&mut self) -> (wrapped: bool)
        requires
            old(self).wf(),
        ensures
            final(self).wf(),
            final(self).segs@.len() == old(self).segs@.len(),
            wrapped == wraps(stepped(old(self).head())),
            final(self).head() == wrap_seg(stepped(old(self).head())),
            seg_in_play(final(self).head()),
            forall|i: int|
                1 <= i < old(self).segs@.len() ==> final(self).segs@[i] == old(self).segs@[i - 1],
    {
        let ghost orig = self.segs@;
        let len = self.segs.len();
        let mut i: usize = len - 1;
        while i >= 1
            invariant
                self.segs@.len() == orig.len(),
                len == orig.len(),
                i < len,
                forall|j: int| (i as int) < j < (len as int) ==> self.segs@[j] == orig[j - 1],
                forall|j: int| 0 <= j <= i as int ==> self.segs@[j] == orig[j],
            decreases i,
        {
            let v = self.segs[i - 1];
            self.segs.set(i, v);
            i = i - 1;
        }
        let head = self.segs[0];
        let mut nx = head.x;
        let mut ny = head.y;
        match head.direction {
            Direction::Up => {
                ny = ny - 1;
            },
            Direction::Down => {
                ny = ny + 1;
            },
            Direction::Left => {
                nx = nx - 2;
            },
            Direction::Right => {
                nx = nx + 2;
            },
        }
        let mut wrapped = false;
        if nx == 0 {
            nx = 52;
            wrapped = true;
        }
        if nx == 54 {
            nx = 2;
            wrapped = true;
        }
        if ny == 0 {
            ny = 22;
            wrapped = true;
        }
        if ny == 23 {
            ny = 1;
            wrapped = true;
        }
        self.segs.set(0, Segment { x: nx, y: ny, direction: head.direction });
        wrapped
    }

    /// Applies a turn request: a repeat of the current facing or a direct
    /// reversal (recognised by the two forbidden code sums) leaves the head
    /// unchanged; any other direction becomes the new facing.
    pub fn turn(&mut self, want: Direction)
        requires
            old(self).wf(),
        ensures
            final(self).wf(),
            turn_allowed(old(self).head().direction, want) ==> final(self).segs@ == old(
                self,
            ).segs@.update(0, Segment { direction: want, ..old(self).head() }),
            !turn_allowed(old(self).head().direction, want) ==> *final(self) == *old(self),
            final(self).head().direction == (if turn_allowed(old(self).head().direction, want) {
                want
            } else {
                old(self).head().direction
            }),
    {
        let head = self.segs[0];
        let cur = head.direction;
        let sum = want.to_int() + cur.to_int();
        if sum != 3 + 4 && sum != 1 + 2 && want != cur {
            self.segs.set(0, Segment { direction: want, ..head });
        }
    }

    /// Whether the head has run into the body; compares the head against
    /// every trailing segment but the last, whose place is still about to be
    /// vacated by the shift.
    pub fn self_collision(&self) -> (b: bool)
        requires
            self.wf(),
        ensures
            b == self.spec_self_collision(),
    {
        let head = self.segs[0];
        let len = self.segs.len();
        let mut i: usize = 1;
        while i < len - 1
            invariant
                self.wf(),
                len == self.segs@.len(),
                head == self.head(),
                1 <= i <= len - 1,
                forall|j: int| 1 <= j < i as int ==> !same_pos(#[trigger] self.segs@[j], self.head()),
            decreases len - i,
        {
            let s = self.segs[i];
            if s.x == head.x && s.y == head.y {
                proof {
                    assert(same_pos(self.segs@[i as int], self.head()));
                }
                return true;
            }
            proof {
                assert(!same_pos(self.segs@[i as int], self.head()));
            }
            i = i + 1;
        }
        false
    }

    /// Adds one segment. The new slot duplicates the current last segment;
    /// its value never matters, as the next movement step settles it before
    /// any rule reads it.
    pub fn grow(&mut self)
        requires
            old(self).wf(),
            old(self).segs@.len() < SNAKE_CAP as int,
        ensures
            final(self).wf(),
            final(self).segs@ == old(self).segs@.push(old(self).segs@.last()),
    {
        let last = self.segs[self.segs.len() - 1];
        self.segs.push(last);
    }
}

} // verus!
