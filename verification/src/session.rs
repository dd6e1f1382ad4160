//! The game session and the round controller's state machine. One value of
//! `GameSession` owns the grid, the snake, the clock and the spawner state;
//! the per-tick phases — move, turn, resolve collisions, spawn items, check
//! terminal conditions — are its methods, in the order the round controller
//! calls them. The surrounding program drives the loop, renders, sleeps and
//! polls the keyboard; every rule lives here.

use vstd::prelude::*;
use crate::clock::{GameClock, Level, spec_velocity};
use crate::grid::{Cell, Grid, GRID_CELLS, GRID_COLS, GRID_ROWS, cell_index, count_cells, in_grid};
use crate::input::{Intent, intent_direction, spec_intent_direction};
use crate::snake::{
    Direction, Segment, Snake, SNAKE_CAP, opposite, seg_in_play, stepped, turn_allowed, wrap_seg,
    wraps,
};

verus! {

/// Health granted at every round start, and the cap a bonus can reach.
pub const HEALTH_MAX: i16 = 6;

/// Elapsed-time floor below which no hazard spawns.
pub const HAZARD_FLOOR: u64 = 20;

/// A hazard may spawn only when elapsed time is a multiple of this.
pub const HAZARD_MODULUS: u64 = 12;

/// Elapsed-time floor below which no bonus spawns.
pub const BONUS_FLOOR: u64 = 25;

/// A bonus may spawn only when elapsed time is a multiple of this.
pub const BONUS_MODULUS: u64 = 15;

/// How a tick leaves the round.
#[derive(Clone, Copy, Debug, PartialEq, Eq, Structural)]
pub enum TickOutcome {
    Continue,
    Defeat,
    Victory,
}

/// Grid column a playable glyph coordinate addresses.
pub open spec fn col_of(x: int) -> int {
    (x - 2) / 2
}

/// Grid row a playable glyph coordinate addresses.
pub open spec fn row_of(y: int) -> int {
    y - 1
}

/// The cell a segment stands on.
pub open spec fn seg_cell(g: Grid, s: Segment) -> Cell {
    g.cell(col_of(s.x as int), row_of(s.y as int))
}

/// Whether no cell at all is empty; only then can a spawn find no home.
pub open spec fn grid_full(g: Grid) -> bool {
    forall|c: int, r: int| in_grid(c, r) ==> g.cell(c, r) != Cell::Empty
}

/// One round's whole mutable state.
pub struct GameSession {
    /// The selected level.
    pub level: Level,
    /// Tick delay the level fixes.
    pub velocity: u64,
    /// Health points; 0 through 6 in normal play, a cheat may set others.
    pub health: i16,
    /// Food pieces eaten this round.
    pub food_eaten: u16,
    /// Grid column of the last food spawn.
    pub food_x: usize,
    /// Grid row of the last food spawn.
    pub food_y: usize,
    /// Elapsed time at which the last hazard spawned.
    pub last_hazard_at: u64,
    /// Elapsed time at which the last bonus spawned.
    pub last_bonus_at: u64,
    /// The snake.
    pub snake: Snake,
    /// The board.
    pub grid: Grid,
    /// The round's clock.
    pub clock: GameClock,
}

impl GameSession {
    /// At most one food cell ever exists, and only at the recorded spot.
    pub open spec fn food_unique(self) -> bool {
        forall|i: int|
            0 <= i < GRID_CELLS as int && #[trigger] self.grid.cells@[i] == Cell::Food ==> i
                == cell_index(self.food_x as int, self.food_y as int)
    }

    /// Whether the spawned food is still on the board.
    pub open spec fn food_present(self) -> bool {
        self.grid.cell(self.food_x as int, self.food_y as int) == Cell::Food
    }

    /// The cell under the snake's head.
    pub open spec fn head_cell(self) -> Cell {
        seg_cell(self.grid, self.snake.head())
    }

    /// The session invariant: sound snake and grid, the food spot on the
    /// board and unique, a sound clock, the velocity the level's, and the
    /// food counter in step with the growth it caused.
    pub open spec fn wf(self) -> bool {
        &&& self.snake.wf()
        &&& self.grid.wf()
        &&& self.food_x < GRID_COLS && self.food_y < GRID_ROWS
        &&& self.food_unique()
        &&& self.clock.wf()
        &&& self.velocity as int == spec_velocity(self.level)
        &&& self.food_eaten as int == self.snake.segs@.len() - 4
    }

    /// A round exactly as level selection leaves it: full health, the fixed
    /// four-segment pose facing right, an empty board, a fresh clock.
    pub open spec fn is_fresh_round(self, level: Level, now: u64) -> bool {
        &&& self.level == level
        &&& self.velocity as int == spec_velocity(level)
        &&& self.health == HEALTH_MAX as int
        &&& self.food_eaten == 0
        &&& self.snake.segs@.len() == 4
        &&& self.snake.head() == (Segment { x: 6, y: 10, direction: Direction::Right })
        &&& self.snake.segs@[1] == (Segment { x: 4, y: 10, direction: Direction::Right })
        &&& self.snake.segs@[2] == (Segment { x: 2, y: 10, direction: Direction::Right })
        &&& self.snake.segs@[3] == (Segment { x: 4, y: 4, direction: Direction::Right })
        &&& forall|c: int, r: int| in_grid(c, r) ==> self.grid.cell(c, r) == Cell::Empty
        &&& self.clock.started_at == now
        &&& self.clock.pause_started_at is None
        &&& self.clock.total_paused == 0
        &&& self.last_hazard_at == 0
        &&& self.last_bonus_at == 0
    }

    /// A session at the start of a round of `level`, begun at wall time `now`.
    pub fn new(level: Level, now: u64) -> (s: GameSession)
        ensures
            s.wf(),
            s.is_fresh_round(level, now),
    {
        let velocity = level.velocity();
        GameSession {
            level,
            velocity,
            health: HEALTH_MAX,
            food_eaten: 0,
            food_x: 0,
            food_y: 0,
            last_hazard_at: 0,
            last_bonus_at: 0,
            snake: Snake::start_pose(),
            grid: Grid::new(),
            clock: GameClock::new(now),
        }
    }

    /// Re-enters level selection: the whole session is reset for `level`.
    /// Only here does the snake's length return to its starting value.
    pub fn start_round(&mut self, level: Level, now: u64)
        ensures
            final(self).wf(),
            final(self).is_fresh_round(level, now),
    {
        *self = GameSession::new(level, now);
    }

    /// The health override of the level-selection surface; everything else
    /// stands.
    pub fn set_health(&mut self, h: i16)
        requires
            old(self).wf(),
        ensures
            final(self).wf(),
            *final(self) == (GameSession { health: h, ..*old(self) }),
    {
        self.health = h;
    }
}

/// The movement phase's effect: every trailing segment takes its
/// predecessor's place, the head steps and wraps, and a wrap costs exactly
/// one health point while any health is left — health never passes below
/// zero, so the round's end at zero cannot be slipped past. Nothing else
/// changes.
pub open spec fn advance_rel(pre: GameSession, post: GameSession) -> bool {
    &&& post.snake.segs@.len() == pre.snake.segs@.len()
    &&& post.snake.head() == wrap_seg(stepped(pre.snake.head()))
    &&& forall|i: int|
        1 <= i < pre.snake.segs@.len() ==> post.snake.segs@[i] == pre.snake.segs@[i - 1]
    &&& post.health as int == (if wraps(stepped(pre.snake.head())) && pre.health > 0 {
        pre.health as int - 1
    } else {
        pre.health as int
    })
    &&& post == (GameSession { snake: post.snake, health: post.health, ..pre })
}

impl GameSession {
    /// Movement phase of one tick.
    pub fn advance_snake(&mut self)
        requires
            old(self).wf(),
        ensures
            final(self).wf(),
            advance_rel(*old(self), *final(self)),
            seg_in_play(final(self).snake.head()),
            old(self).health > 0 ==> (final(self).health == old(self).health <==> !wraps(
                stepped(old(self).snake.head()),
            )),
            final(self).health >= 0 || final(self).health == old(self).health,
    {
        let wrapped = self.snake.advance();
        if wrapped && self.health > 0 {
            self.health = self.health - 1;
        }
    }
}

/// The turn phase's effect: the head's facing becomes the request unless the
/// request repeats or reverses it; nothing else changes.
pub open spec fn turn_rel(pre: GameSession, post: GameSession, want: Direction) -> bool {
    &&& post.snake.segs@ == pre.snake.segs@.update(
        0,
        Segment {
            direction: if turn_allowed(pre.snake.head().direction, want) {
                want
            } else {
                pre.snake.head().direction
            },
            ..pre.snake.head()
        },
    )
    &&& post == (GameSession { snake: post.snake, ..pre })
}

/// The input phase's effect: a turn intent is a turn request, every other
/// intent leaves the session as it stands (pause and restart act outside the
/// tick).
pub open spec fn intent_rel(pre: GameSession, post: GameSession, intent: Intent) -> bool {
    match spec_intent_direction(intent) {
        Some(d) => turn_rel(pre, post, d),
        None => post == pre,
    }
}

impl GameSession {
    /// Turn phase of one tick: applies a direction request to the head. A
    /// request equal to the current facing or to its direct opposite never
    /// alters it; any other direction always does.
    pub fn request_turn(&mut self, want: Direction)
        requires
            old(self).wf(),
        ensures
            final(self).wf(),
            turn_rel(*old(self), *final(self), want),
            final(self).snake.head().direction == (if turn_allowed(
                old(self).snake.head().direction,
                want,
            ) {
                want
            } else {
                old(self).snake.head().direction
            }),
            (want == old(self).snake.head().direction || opposite(
                old(self).snake.head().direction,
                want,
            )) ==> *final(self) == *old(self),
    {
        let ghost pre = *self;
        self.snake.turn(want);
        proof {
            if !turn_allowed(pre.snake.head().direction, want) {
                assert(pre.snake.segs@.update(
                    0,
                    Segment {
                        direction: pre.snake.head().direction,
                        ..pre.snake.head()
                    },
                ) =~= pre.snake.segs@);
            }
        }
    }

    /// Applies an intent to the session: turn intents turn, the rest leave
    /// the tick's state alone.
    pub fn apply_intent(&mut self, intent: Intent)
        requires
            old(self).wf(),
        ensures
            final(self).wf(),
            intent_rel(*old(self), *final(self), intent),
    {
        match intent_direction(intent) {
            Some(d) => self.request_turn(d),
            None => {},
        }
    }
}

/// Whether some segment of `sn` stands on a food cell of `g`.
pub open spec fn food_on_body(sn: Snake, g: Grid) -> bool {
    exists|i: int|
        0 <= i < sn.segs@.len() && #[trigger] seg_cell(g, sn.segs@[i]) == Cell::Food
}

/// Finds a segment standing on a food cell and returns that cell's position,
/// or `None` when no segment covers food.
fn food_scan(sn: &Snake, g: &Grid) -> (r: Option<(usize, usize)>)
    requires
        sn.wf(),
        g.wf(),
    ensures
        match r {
            Some(p) => in_grid(p.0 as int, p.1 as int) && g.cell(p.0 as int, p.1 as int)
                == Cell::Food && food_on_body(*sn, *g),
            None => !food_on_body(*sn, *g),
        },
{
    let len = sn.segs.len();
    let mut i: usize = 0;
    while i < len
        invariant
            sn.wf(),
            g.wf(),
            i <= len,
            len == sn.segs@.len(),
            forall|j: int| 0 <= j < i as int ==> #[trigger] seg_cell(*g, sn.segs@[j]) != Cell::Food,
        decreases len - i,
    {
        let s = sn.segs[i];
        proof {
            assert(seg_in_play(sn.segs@[i as int]));
        }
        let c = (s.x as usize - 2) / 2;
        let rw = s.y as usize - 1;
        if g.cell_at(c, rw) == Cell::Food {
            proof {
                assert(seg_cell(*g, sn.segs@[i as int]) == Cell::Food);
            }
            return Some((c, rw));
        }
        proof {
            assert(seg_cell(*g, sn.segs@[i as int]) != Cell::Food);
        }
        i = i + 1;
    }
    None
}

/// The collision phase's effect, over the state the movement phase left: a
/// head inside the body forces health to zero outright; a hazard under the
/// head is consumed and costs one point while any health is left; food under
/// any segment grows the snake, counts, and is consumed; a bonus under the
/// head is consumed and restores one point to a live snake below the cap — a
/// snake at zero is dead this tick and nothing revives it, so health never
/// passes below zero nor leaves zero once reached. Nothing else changes.
pub open spec fn resolve_rel(pre: GameSession, post: GameSession) -> bool {
    let hidx = cell_index(col_of(pre.snake.head().x as int), row_of(pre.snake.head().y as int));
    let fidx = cell_index(pre.food_x as int, pre.food_y as int);
    let headcell = pre.grid.cells@[hidx];
    let ate = food_on_body(pre.snake, pre.grid);
    let h1 = if pre.snake.spec_self_collision() {
        0int
    } else {
        pre.health as int
    };
    let h2 = if headcell == Cell::Hazard && h1 > 0 {
        h1 - 1
    } else {
        h1
    };
    let h3 = if headcell == Cell::Bonus && 0 < h2 < HEALTH_MAX as int {
        h2 + 1
    } else {
        h2
    };
    let g1 = if headcell == Cell::Hazard {
        pre.grid.cells@.update(hidx, Cell::Empty)
    } else {
        pre.grid.cells@
    };
    let g2 = if ate {
        g1.update(fidx, Cell::Empty)
    } else {
        g1
    };
    let g3 = if headcell == Cell::Bonus {
        g2.update(hidx, Cell::Empty)
    } else {
        g2
    };
    &&& post.health as int == h3
    &&& post.grid.cells@ == g3
    &&& post.snake.segs@ == (if ate {
        pre.snake.segs@.push(pre.snake.segs@.last())
    } else {
        pre.snake.segs@
    })
    &&& post.food_eaten as int == pre.food_eaten as int + (if ate {
        1int
    } else {
        0int
    })
    &&& post == (GameSession {
        health: post.health,
        grid: post.grid,
        snake: post.snake,
        food_eaten: post.food_eaten,
        ..pre
    })
}

impl GameSession {
    /// Collision phase of one tick: self-collision, then the hazard under
    /// the head, then consumables, in the fixed order.
    pub fn resolve_collisions(&mut self)
        requires
            old(self).wf(),
            old(self).snake.segs@.len() < SNAKE_CAP as int,
        ensures
            final(self).wf(),
            resolve_rel(*old(self), *final(self)),
            old(self).health <= HEALTH_MAX ==> final(self).health <= HEALTH_MAX,
            old(self).health >= 0 ==> final(self).health >= 0,
            final(self).snake.segs@.len() >= old(self).snake.segs@.len(),
    {
        let ghost pre = *self;
        if self.snake.self_collision() {
            self.health = 0;
        }
        let head = self.snake.segs[0];
        proof {
            assert(seg_in_play(pre.snake.segs@[0]));
        }
        let hc = (head.x as usize - 2) / 2;
        let hr = head.y as usize - 1;
        if self.grid.cell_at(hc, hr) == Cell::Hazard {
            if self.health > 0 {
                self.health = self.health - 1;
            }
            self.grid.clear(hc, hr);
        }
        let ghost mid = *self;
        proof {
            assert forall|j: int| 0 <= j < pre.snake.segs@.len() implies (#[trigger] seg_cell(
                mid.grid,
                pre.snake.segs@[j],
            ) == Cell::Food <==> seg_cell(pre.grid, pre.snake.segs@[j]) == Cell::Food) by {
                assert(seg_in_play(pre.snake.segs@[j]));
            }
            if food_on_body(pre.snake, pre.grid) {
                let i = choose|i: int|
                    0 <= i < pre.snake.segs@.len() && #[trigger] seg_cell(
                        pre.grid,
                        pre.snake.segs@[i],
                    ) == Cell::Food;
                assert(seg_cell(mid.grid, mid.snake.segs@[i]) == Cell::Food);
                assert(food_on_body(mid.snake, mid.grid));
            }
            if food_on_body(mid.snake, mid.grid) {
                let i = choose|i: int|
                    0 <= i < mid.snake.segs@.len() && #[trigger] seg_cell(
                        mid.grid,
                        mid.snake.segs@[i],
                    ) == Cell::Food;
                assert(seg_cell(pre.grid, pre.snake.segs@[i]) == Cell::Food);
                assert(food_on_body(pre.snake, pre.grid));
            }
            assert(food_on_body(mid.snake, mid.grid) == food_on_body(pre.snake, pre.grid));
        }
        match food_scan(&self.snake, &self.grid) {
            Some(p) => {
                let (fc, fr) = p;
                proof {
                    crate::grid::lemma_cell_index_injective(
                        fc as int,
                        fr as int,
                        pre.food_x as int,
                        pre.food_y as int,
                    );
                }
                self.grid.clear(fc, fr);
                self.snake.grow();
                self.food_eaten = self.food_eaten + 1;
            },
            None => {},
        }
        if self.grid.cell_at(hc, hr) == Cell::Bonus {
            if self.health > 0 && self.health < HEALTH_MAX {
                self.health = self.health + 1;
            }
            self.grid.clear(hc, hr);
        }
    }
}

/// Whether the hazard spawn gate is open at elapsed time `e`: past the
/// floor, on the throttle modulus, later than the last hazard spawn, and
/// with nothing under the head.
pub open spec fn hazard_gate(s: GameSession, e: int) -> bool {
    &&& e >= HAZARD_FLOOR as int
    &&& e % (HAZARD_MODULUS as int) == 0
    &&& e > s.last_hazard_at as int
    &&& s.head_cell() == Cell::Empty
}

/// Whether the bonus spawn gate is open at elapsed time `e`; the same shape
/// as the hazard gate, with a higher floor and its own modulus and stamp.
pub open spec fn bonus_gate(s: GameSession, e: int) -> bool {
    &&& e >= BONUS_FLOOR as int
    &&& e % (BONUS_MODULUS as int) == 0
    &&& e > s.last_bonus_at as int
    &&& s.head_cell() == Cell::Empty
}

/// The food rule's effect: if the food is gone, one food cell appears at a
/// previously empty spot, which is recorded; otherwise (and on a board with
/// no empty cell) nothing changes.
pub open spec fn food_step(pre: GameSession, post: GameSession) -> bool {
    if pre.food_present() || grid_full(pre.grid) {
        post == pre
    } else {
        &&& in_grid(post.food_x as int, post.food_y as int)
        &&& pre.grid.cell(post.food_x as int, post.food_y as int) == Cell::Empty
        &&& post.grid.cells@ == pre.grid.cells@.update(
            cell_index(post.food_x as int, post.food_y as int),
            Cell::Food,
        )
        &&& post == (GameSession {
            grid: post.grid,
            food_x: post.food_x,
            food_y: post.food_y,
            ..pre
        })
    }
}

/// The hazard rule's effect: an open gate puts one hazard on a previously
/// empty cell and stamps the spawn time; a shut gate changes nothing.
pub open spec fn hazard_step(pre: GameSession, post: GameSession, e: int) -> bool {
    if hazard_gate(pre, e) {
        exists|c: int, r: int|
            #![all_triggers]
            in_grid(c, r) && pre.grid.cell(c, r) == Cell::Empty && post.grid.cells@
                == pre.grid.cells@.update(cell_index(c, r), Cell::Hazard) && post.last_hazard_at
                as int == e && post == (GameSession {
                grid: post.grid,
                last_hazard_at: post.last_hazard_at,
                ..pre
            })
    } else {
        post == pre
    }
}

/// The bonus rule's effect, in the same shape as the hazard rule.
pub open spec fn bonus_step(pre: GameSession, post: GameSession, e: int) -> bool {
    if bonus_gate(pre, e) {
        exists|c: int, r: int|
            #![all_triggers]
            in_grid(c, r) && pre.grid.cell(c, r) == Cell::Empty && post.grid.cells@
                == pre.grid.cells@.update(cell_index(c, r), Cell::Bonus) && post.last_bonus_at
                as int == e && post == (GameSession {
                grid: post.grid,
                last_bonus_at: post.last_bonus_at,
                ..pre
            })
    } else {
        post == pre
    }
}

/// The spawner's whole effect at elapsed time `e`: the food, hazard and
/// bonus rules in that order, each seeing the state the one before left.
pub open spec fn spawner_rel(pre: GameSession, post: GameSession, e: int) -> bool {
    exists|m1: GameSession, m2: GameSession|
        #![all_triggers]
        food_step(pre, m1) && hazard_step(m1, m2, e) && bonus_step(m2, post, e)
}

impl GameSession {
    /// The spawner's food rule: replaces the food if it was eaten.
    fn spawn_food_if_missing(&mut self, rng: &mut rand::rngs::StdRng)
        requires
            old(self).wf(),
        ensures
            final(self).wf(),
            food_step(*old(self), *final(self)),
            old(self).food_present() || !grid_full(old(self).grid) ==> final(self).food_present(),
            count_cells(final(self).grid.cells@, Cell::Hazard) == count_cells(
                old(self).grid.cells@,
                Cell::Hazard,
            ),
            count_cells(final(self).grid.cells@, Cell::Bonus) == count_cells(
                old(self).grid.cells@,
                Cell::Bonus,
            ),
    {
        let ghost pre = *self;
        let food_here = self.grid.cell_at(self.food_x, self.food_y);
        if !(food_here == Cell::Food) {
            match self.grid.random_empty_position(rng) {
                Some(p) => {
                    let (c, r) = p;
                    proof {
                        crate::grid::lemma_count_cells_update(
                            pre.grid.cells@,
                            cell_index(c as int, r as int),
                            Cell::Food,
                            Cell::Hazard,
                        );
                        crate::grid::lemma_count_cells_update(
                            pre.grid.cells@,
                            cell_index(c as int, r as int),
                            Cell::Food,
                            Cell::Bonus,
                        );
                    }
                    self.grid.place(c, r, Cell::Food);
                    self.food_x = c;
                    self.food_y = r;
                },
                None => {},
            }
        }
    }

    /// The spawner's hazard rule: an open gate drops one hazard on a random
    /// empty cell and stamps the elapsed time.
    fn spawn_hazard_if_due(&mut self, e: u64, rng: &mut rand::rngs::StdRng)
        requires
            old(self).wf(),
        ensures
            final(self).wf(),
            hazard_step(*old(self), *final(self), e as int),
            final(self).food_present() == old(self).food_present(),
            count_cells(final(self).grid.cells@, Cell::Hazard) == count_cells(
                old(self).grid.cells@,
                Cell::Hazard,
            ) + (if hazard_gate(*old(self), e as int) {
                1int
            } else {
                0int
            }),
            count_cells(final(self).grid.cells@, Cell::Bonus) == count_cells(
                old(self).grid.cells@,
                Cell::Bonus,
            ),
            final(self).last_hazard_at == (if hazard_gate(*old(self), e as int) {
                e
            } else {
                old(self).last_hazard_at
            }),
    {
        let ghost pre = *self;
        let head = self.snake.segs[0];
        proof {
            assert(seg_in_play(pre.snake.segs@[0]));
        }
        let hc = (head.x as usize - 2) / 2;
        let hr = head.y as usize - 1;
        proof {
            assert(hc as int == col_of(pre.snake.head().x as int));
            assert(hr as int == row_of(pre.snake.head().y as int));
        }
        if e >= HAZARD_FLOOR && e % HAZARD_MODULUS == 0 && e > self.last_hazard_at
            && self.grid.is_empty(hc, hr) {
            proof {
                assert(hazard_gate(pre, e as int));
            }
            match self.grid.random_empty_position(rng) {
                Some(p) => {
                    let (c, r) = p;
                    proof {
                        crate::grid::lemma_count_cells_update(
                            pre.grid.cells@,
                            cell_index(c as int, r as int),
                            Cell::Hazard,
                            Cell::Hazard,
                        );
                        crate::grid::lemma_count_cells_update(
                            pre.grid.cells@,
                            cell_index(c as int, r as int),
                            Cell::Hazard,
                            Cell::Bonus,
                        );
                    }
                    self.grid.place(c, r, Cell::Hazard);
                    self.last_hazard_at = e;
                    proof {
                        assert(in_grid(c as int, r as int) && pre.grid.cell(c as int, r as int)
                            == Cell::Empty && self.grid.cells@ == pre.grid.cells@.update(
                            cell_index(c as int, r as int),
                            Cell::Hazard,
                        ) && self.last_hazard_at as int == e as int && *self == (GameSession {
                            grid: self.grid,
                            last_hazard_at: self.last_hazard_at,
                            ..pre
                        }));
                        assert(hazard_step(pre, *self, e as int));
                    }
                },
                None => {
                    proof {
                        assert(in_grid(hc as int, hr as int));
                        assert(pre.grid.cell(hc as int, hr as int) != Cell::Empty);
                        assert(false);
                    }
                },
            }
        } else {
            proof {
                assert(!hazard_gate(pre, e as int));
            }
        }
    }

    /// The spawner's bonus rule, the hazard rule's shape with its own gate.
    fn spawn_bonus_if_due(&mut self, e: u64, rng: &mut rand::rngs::StdRng)
        requires
            old(self).wf(),
        ensures
            final(self).wf(),
            bonus_step(*old(self), *final(self), e as int),
            final(self).food_present() == old(self).food_present(),
            count_cells(final(self).grid.cells@, Cell::Bonus) == count_cells(
                old(self).grid.cells@,
                Cell::Bonus,
            ) + (if bonus_gate(*old(self), e as int) {
                1int
            } else {
                0int
            }),
            count_cells(final(self).grid.cells@, Cell::Hazard) == count_cells(
                old(self).grid.cells@,
                Cell::Hazard,
            ),
            final(self).last_bonus_at == (if bonus_gate(*old(self), e as int) {
                e
            } else {
                old(self).last_bonus_at
            }),
    {
        let ghost pre = *self;
        let head = self.snake.segs[0];
        proof {
            assert(seg_in_play(pre.snake.segs@[0]));
        }
        let hc = (head.x as usize - 2) / 2;
        let hr = head.y as usize - 1;
        proof {
            assert(hc as int == col_of(pre.snake.head().x as int));
            assert(hr as int == row_of(pre.snake.head().y as int));
        }
        if e >= BONUS_FLOOR && e % BONUS_MODULUS == 0 && e > self.last_bonus_at
            && self.grid.is_empty(hc, hr) {
            proof {
                assert(bonus_gate(pre, e as int));
            }
            match self.grid.random_empty_position(rng) {
                Some(p) => {
                    let (c, r) = p;
                    proof {
                        crate::grid::lemma_count_cells_update(
                            pre.grid.cells@,
                            cell_index(c as int, r as int),
                            Cell::Bonus,
                            Cell::Hazard,
                        );
                        crate::grid::lemma_count_cells_update(
                            pre.grid.cells@,
                            cell_index(c as int, r as int),
                            Cell::Bonus,
                            Cell::Bonus,
                        );
                    }
                    self.grid.place(c, r, Cell::Bonus);
                    self.last_bonus_at = e;
                    proof {
                        assert(in_grid(c as int, r as int) && pre.grid.cell(c as int, r as int)
                            == Cell::Empty && self.grid.cells@ == pre.grid.cells@.update(
                            cell_index(c as int, r as int),
                            Cell::Bonus,
                        ) && self.last_bonus_at as int == e as int && *self == (GameSession {
                            grid: self.grid,
                            last_bonus_at: self.last_bonus_at,
                            ..pre
                        }));
                        assert(bonus_step(pre, *self, e as int));
                    }
                },
                None => {
                    proof {
                        assert(in_grid(hc as int, hr as int));
                        assert(pre.grid.cell(hc as int, hr as int) != Cell::Empty);
                        assert(false);
                    }
                },
            }
        } else {
            proof {
                assert(!bonus_gate(pre, e as int));
            }
        }
    }

    /// Spawn phase of one tick: replaces eaten food, then lets the throttled
    /// gates drop one hazard and one bonus on random empty cells, each rule
    /// seeing the board the one before left.
    pub fn run_spawner(&mut self, now: u64, rng: &mut rand::rngs::StdRng)
        requires
            old(self).wf(),
            old(self).clock.now_valid(now),
        ensures
            final(self).wf(),
            spawner_rel(*old(self), *final(self), old(self).clock.spec_elapsed(now)),
            old(self).food_present() || !grid_full(old(self).grid) ==> final(self).food_present(),
            final(self).last_hazard_at == old(self).last_hazard_at ==> count_cells(
                final(self).grid.cells@,
                Cell::Hazard,
            ) == count_cells(old(self).grid.cells@, Cell::Hazard),
            final(self).last_hazard_at != old(self).last_hazard_at ==> final(self).last_hazard_at
                as int == old(self).clock.spec_elapsed(now) && count_cells(
                final(self).grid.cells@,
                Cell::Hazard,
            ) == count_cells(old(self).grid.cells@, Cell::Hazard) + 1 && old(
                self,
            ).clock.spec_elapsed(now) > old(self).last_hazard_at as int,
            final(self).last_bonus_at == old(self).last_bonus_at ==> count_cells(
                final(self).grid.cells@,
                Cell::Bonus,
            ) == count_cells(old(self).grid.cells@, Cell::Bonus),
            final(self).last_bonus_at != old(self).last_bonus_at ==> final(self).last_bonus_at
                as int == old(self).clock.spec_elapsed(now) && count_cells(
                final(self).grid.cells@,
                Cell::Bonus,
            ) == count_cells(old(self).grid.cells@, Cell::Bonus) + 1 && old(
                self,
            ).clock.spec_elapsed(now) > old(self).last_bonus_at as int,
            final(self).snake == old(self).snake,
            final(self).health == old(self).health,
            final(self).food_eaten == old(self).food_eaten,
            final(self).clock == old(self).clock,
            final(self).level == old(self).level,
            final(self).velocity == old(self).velocity,
    {
        let ghost pre = *self;
        let e = self.clock.elapsed(now);
        self.spawn_food_if_missing(rng);
        let ghost m1 = *self;
        self.spawn_hazard_if_due(e, rng);
        let ghost m2 = *self;
        self.spawn_bonus_if_due(e, rng);
        proof {
            assert(food_step(pre, m1) && hazard_step(m1, m2, e as int) && bonus_step(
                m2,
                *self,
                e as int,
            ));
            assert(spawner_rel(pre, *self, e as int));
        }
    }
}

/// What the terminal check yields: an exhausted snake loses, a snake at the
/// cap wins, and defeat is looked at first, so the two can never both be
/// declared.
pub open spec fn spec_outcome(s: GameSession) -> TickOutcome {
    if s.health == 0 {
        TickOutcome::Defeat
    } else if s.snake.segs@.len() == SNAKE_CAP as int {
        TickOutcome::Victory
    } else {
        TickOutcome::Continue
    }
}

/// One whole tick's effect: the movement, input, collision and spawner
/// phases in order, each starting from the state the one before left.
pub open spec fn tick_rel(pre: GameSession, post: GameSession, intent: Intent, now: u64) -> bool {
    exists|m1: GameSession, m2: GameSession, m3: GameSession|
        #![all_triggers]
        advance_rel(pre, m1) && intent_rel(m1, m2, intent) && resolve_rel(m2, m3) && spawner_rel(
            m3,
            post,
            pre.clock.spec_elapsed(now),
        )
}

impl GameSession {
    /// Terminal check: defeat exactly on exhausted health, victory exactly
    /// on a snake at the cap with health left, otherwise the round goes on.
    pub fn check_terminal(&self) -> (o: TickOutcome)
        ensures
            o == spec_outcome(*self),
            o == TickOutcome::Defeat <==> self.health == 0,
            o == TickOutcome::Victory <==> (self.health != 0 && self.snake.segs@.len()
                == SNAKE_CAP as int),
            o == TickOutcome::Continue <==> (self.health != 0 && self.snake.segs@.len()
                != SNAKE_CAP as int),
    {
        if self.health == 0 {
            TickOutcome::Defeat
        } else if self.snake.segs.len() == SNAKE_CAP {
            TickOutcome::Victory
        } else {
            TickOutcome::Continue
        }
    }

    /// One tick of the round controller, after the external work: the caller
    /// has rendered, slept and polled a key, and hands in the resolved
    /// intent, the wall time and the random source. The snake moves, the
    /// intent turns the head, collisions are resolved, items spawn, and the
    /// round's fate is returned.
    pub fn tick(&mut self, intent: Intent, now: u64, rng: &mut rand::rngs::StdRng) -> (o:
        TickOutcome)
        requires
            old(self).wf(),
            old(self).snake.segs@.len() < SNAKE_CAP as int,
            old(self).clock.now_valid(now),
        ensures
            final(self).wf(),
            tick_rel(*old(self), *final(self), intent, now),
            o == spec_outcome(*final(self)),
            o == TickOutcome::Defeat <==> final(self).health == 0,
            o == TickOutcome::Victory <==> (final(self).health != 0
                && final(self).snake.segs@.len() == SNAKE_CAP as int),
            final(self).snake.segs@.len() >= old(self).snake.segs@.len(),
            old(self).health <= HEALTH_MAX ==> final(self).health <= HEALTH_MAX,
            old(self).health >= 0 ==> final(self).health >= 0,
            0 <= old(self).health <= HEALTH_MAX ==> 0 <= final(self).health <= HEALTH_MAX,
            final(self).clock == old(self).clock,
            final(self).level == old(self).level,
            final(self).velocity == old(self).velocity,
    {
        let ghost pre = *self;
        self.advance_snake();
        let ghost m1 = *self;
        self.apply_intent(intent);
        let ghost m2 = *self;
        self.resolve_collisions();
        let ghost m3 = *self;
        self.run_spawner(now, rng);
        proof {
            assert(advance_rel(pre, m1) && intent_rel(m1, m2, intent) && resolve_rel(m2, m3)
                && spawner_rel(m3, *self, pre.clock.spec_elapsed(now)));
            assert(tick_rel(pre, *self, intent, now));
        }
        self.check_terminal()
    }
}

} // verus!
