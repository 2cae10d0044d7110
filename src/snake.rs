//! The snake game: a body of grid cells that moves one cell per step, grows
//! after eating, dies on a wall or on itself, and food placed by a seeded
//! generator.
use vstd::prelude::*;
use crate::half;
use crate::cells::{
    cell_at, cell_count, cells_of, empty_cells, holds_cell, insert_front, pop_cell, push_cell,
    remove_cell, Cells, MAX_VEC_SIZE,
};
use crate::rng::{draw_range, range_draw, seed_state, seeded_state};

verus! {

/// Length of the body of a new snake, and its first score.
pub const SNAKE_INITIAL_LENGTH: usize = 3;

/// Largest number of draws that one food placement makes before it gives up.
/// At one draw per nanosecond it would take centuries to reach.
pub const MAX_FOOD_DRAWS: u64 = 18446744073709551615;

/// Where the snake heads.
#[derive(Clone, Copy, Debug, PartialEq, Eq, Structural)]
pub enum Direction {
    Up,
    Down,
    Left,
    Right,
}

/// A grid cell.
#[derive(Clone, Copy, Debug, PartialEq, Eq, Structural)]
pub struct Point {
    pub x: i16,
    pub y: i16,
}

/// A snake game session.
pub struct Snake {
    pub width: i16,
    pub height: i16,
    pub head_position: Point,
    pub body: Cells,
    pub direction: Direction,
    pub score: u8,
    pub alive: bool,
    pub ate: bool,
    pub food: Cells,
    pub won: bool,
    /// State of the session's seeded generator.
    pub rng: (u64, u64),
}

/// The direction that reverses `d`.
pub open spec fn opposite(d: Direction) -> Direction {
    match d {
        Direction::Up => Direction::Down,
        Direction::Down => Direction::Up,
        Direction::Left => Direction::Right,
        Direction::Right => Direction::Left,
    }
}

/// The cell one step from `p` towards `d`, as unbounded coordinates.
pub open spec fn step_from(p: Point, d: Direction) -> (int, int) {
    match d {
        Direction::Up => (p.x as int, p.y + 1),
        Direction::Down => (p.x as int, p.y - 1),
        Direction::Left => (p.x - 1, p.y as int),
        Direction::Right => (p.x + 1, p.y as int),
    }
}

/// Whether `(x, y)` lies on a grid of `width` by `height` cells.
pub open spec fn on_grid(x: int, y: int, width: int, height: int) -> bool {
    0 <= x < width && 0 <= y < height
}

/// The cell at coordinates that are known to fit.
pub open spec fn cell(c: (int, int)) -> Point {
    Point { x: c.0 as i16, y: c.1 as i16 }
}

/// The cell that one draw of the generator in `state` picks on a grid of
/// `width` by `height`: first the column, then the row.
pub open spec fn drawn_cell(state: (u64, u64), width: i16, height: i16) -> (Point, (u64, u64)) {
    let (x, s1) = range_draw(state, 0, width as u32);
    let (y, s2) = range_draw(s1, 0, height as u32);
    (Point { x: x as i16, y: y as i16 }, s2)
}

/// A cell that neither the body nor the food holds.
pub open spec fn is_free(p: Point, body: Seq<Point>, food: Seq<Point>) -> bool {
    !body.contains(p) && !food.contains(p)
}

/// Outcome of drawing cells from `state` until a free one comes, at most
/// `draws` times: the free cell, if one came, and the generator's last state.
pub open spec fn food_search(
    state: (u64, u64),
    width: i16,
    height: i16,
    body: Seq<Point>,
    food: Seq<Point>,
    draws: nat,
) -> (Option<Point>, (u64, u64))
    decreases draws,
{
    if draws == 0 {
        (None, state)
    } else {
        let (p, next) = drawn_cell(state, width, height);
        if is_free(p, body, food) {
            (Some(p), next)
        } else {
            food_search(next, width, height, body, food, (draws - 1) as nat)
        }
    }
}

impl Snake {
    /// The body, head first.
    pub open spec fn body_cells(&self) -> Seq<Point> {
        cells_of(self.body)
    }

    /// The food cells, in the order they were placed.
    pub open spec fn food_cells(&self) -> Seq<Point> {
        cells_of(self.food)
    }

    /// The session's invariant: the head is the first body cell, the body fits
    /// its capacity, no cell of the body repeats, and one step from the head
    /// cannot overflow.
    pub open spec fn wf(&self) -> bool {
        &&& 1 <= self.body_cells().len() <= MAX_VEC_SIZE
        &&& self.body_cells()[0] == self.head_position
        &&& self.body_cells().no_duplicates()
        &&& i16::MIN < self.head_position.x < i16::MAX
        &&& i16::MIN < self.head_position.y < i16::MAX
    }

    /// Whether the head can step on: the next cell is on the grid, off the
    /// body, and the body has room for it.
    pub open spec fn can_advance(self) -> bool {
        let next = step_from(self.head_position, self.direction);
        &&& on_grid(next.0, next.1, self.width as int, self.height as int)
        &&& !self.body_cells().contains(cell(next))
        &&& self.body_cells().len() < MAX_VEC_SIZE
    }

    /// Whether `after` is this session after one move of the snake.
    pub open spec fn moved_to(self, after: Snake) -> bool {
        let next = step_from(self.head_position, self.direction);
        let head = cell(next);
        if !on_grid(next.0, next.1, self.width as int, self.height as int) {
            after == (Snake { alive: false, ..self })
        } else if self.body_cells().contains(head) {
            after == (Snake { alive: false, ..self })
        } else if self.body_cells().len() == MAX_VEC_SIZE {
            after == (Snake { won: true, ..self })
        } else {
            &&& after.head_position == head
            &&& after.body_cells() == if self.ate {
                seq![head] + self.body_cells()
            } else {
                (seq![head] + self.body_cells()).drop_last()
            }
            &&& !after.ate
            &&& after.width == self.width
            &&& after.height == self.height
            &&& after.direction == self.direction
            &&& after.score == self.score
            &&& after.alive == self.alive
            &&& after.won == self.won
            &&& after.food == self.food
            &&& after.rng == self.rng
        }
    }

    /// Whether `after` is this session after the snake eats.
    pub open spec fn ate_to(self, after: Snake) -> bool {
        &&& after.score == self.score + 1
        &&& after.ate
        &&& !self.food_cells().contains(self.head_position) ==> after.food_cells()
            == self.food_cells()
        &&& self.food_cells().contains(self.head_position) ==> exists|i: int|
            0 <= i < self.food_cells().len() && self.food_cells()[i] == self.head_position
                && (forall|j: int| 0 <= j < i ==> self.food_cells()[j] != self.head_position)
                && after.food_cells() == self.food_cells().remove(i)
        &&& after.width == self.width
        &&& after.height == self.height
        &&& after.head_position == self.head_position
        &&& after.body == self.body
        &&& after.direction == self.direction
        &&& after.alive == self.alive
        &&& after.won == self.won
        &&& after.rng == self.rng
    }

    /// Whether `s` is a new session on a `width` by `height` grid from
    /// generator seed `seed`.
    pub open spec fn is_fresh(s: Snake, width: i16, height: i16, seed: u64) -> bool {
        &&& s.width == width
        &&& s.height == height
        &&& s.head_position == (Point { x: half(width), y: half(height) })
        &&& s.body_cells() =~= seq![
            Point { x: half(width), y: half(height) },
            Point { x: (half(width) + 1) as i16, y: half(height) },
            Point { x: (half(width) + 2) as i16, y: half(height) },
        ]
        &&& s.direction == Direction::Left
        &&& s.score == SNAKE_INITIAL_LENGTH
        &&& s.alive
        &&& !s.ate
        &&& !s.won
        &&& s.food_cells().len() == 0
        &&& s.rng == seeded_state(seed)
    }

    /// Whether `after` is this session after one food placement.
    pub open spec fn food_placed_to(self, after: Snake) -> bool {
        let (found, state) = food_search(
            self.rng,
            self.width,
            self.height,
            self.body_cells(),
            self.food_cells(),
            MAX_FOOD_DRAWS as nat,
        );
        &&& after.rng == state
        &&& match found {
            Some(p) => if self.food_cells().len() < MAX_VEC_SIZE {
                after.food_cells() == self.food_cells().push(p)
            } else {
                after.food == self.food
            },
            None => after.food == self.food,
        }
        &&& after.width == self.width
        &&& after.height == self.height
        &&& after.head_position == self.head_position
        &&& after.body == self.body
        &&& after.direction == self.direction
        &&& after.score == self.score
        &&& after.alive == self.alive
        &&& after.ate == self.ate
        &&& after.won == self.won
    }

    /// A session on a `width` by `height` grid: three cells side by side from
    /// the middle, head first, heading left, score three, no food.
    pub fn new(width: i16, height: i16, seed: u64) -> (r: Snake)
        ensures
            r.wf(),
            Snake::is_fresh(r, width, height, seed),
    {
        let mid_x = width / 2;
        let mid_y = height / 2;
        let mut body = empty_cells();
        push_cell(&mut body, Point { x: mid_x, y: mid_y });
        push_cell(&mut body, Point { x: mid_x + 1, y: mid_y });
        push_cell(&mut body, Point { x: mid_x + 2, y: mid_y });
        let r = Snake {
            width,
            height,
            head_position: Point { x: mid_x, y: mid_y },
            body,
            direction: Direction::Left,
            score: SNAKE_INITIAL_LENGTH as u8,
            alive: true,
            ate: false,
            food: empty_cells(),
            won: false,
            rng: seed_state(seed),
        };
        assert(r.body_cells()[0] == r.head_position);
        r
    }

    /// Turns towards `new_direction`, unless it reverses the current one.
    pub fn change_direction(&mut self, new_direction: Direction)
        ensures
            new_direction == opposite(old(self).direction) ==> *final(self) == *old(self),
            new_direction != opposite(old(self).direction) ==> *final(self) == (Snake {
                direction: new_direction,
                ..*old(self)
            }),
    {
        match (self.direction, new_direction) {
            (Direction::Up, Direction::Down) => return ,
            (Direction::Down, Direction::Up) => return ,
            (Direction::Left, Direction::Right) => return ,
            (Direction::Right, Direction::Left) => return ,
            _ => self.direction = new_direction,
        }
    }

    /// Moves the head one cell towards the current direction. Leaving the grid
    /// or running into the body kills the snake and changes nothing else. A
    /// full body wins instead of growing. Otherwise the new head goes first and
    /// the tail goes, unless the snake has just eaten: then it stays and the
    /// pending growth is spent.
    pub fn move_snake(&mut self)
        requires
            old(self).wf(),
        ensures
            final(self).wf(),
            old(self).moved_to(*final(self)),
    {
        let new_head = match self.direction {
            Direction::Up => Point { x: self.head_position.x, y: self.head_position.y + 1 },
            Direction::Down => Point { x: self.head_position.x, y: self.head_position.y - 1 },
            Direction::Left => Point { x: self.head_position.x - 1, y: self.head_position.y },
            Direction::Right => Point { x: self.head_position.x + 1, y: self.head_position.y },
        };
        assert(new_head.x as int == step_from(self.head_position, self.direction).0);
        assert(new_head.y as int == step_from(self.head_position, self.direction).1);
        if new_head.x < 0 || new_head.x >= self.width || new_head.y < 0 || new_head.y
            >= self.height {
            self.alive = false;
            return ;
        }
        if holds_cell(&self.body, new_head) {
            self.alive = false;
            return ;
        }
        let ghost before = self.body_cells();
        if !insert_front(&mut self.body, new_head) {
            self.won = true;
            return ;
        }
        assert((seq![new_head] + before).no_duplicates()) by {
            assert forall|i: int, j: int|
                0 <= i < j < before.len() + 1 implies (seq![new_head] + before)[i] != (seq![
                new_head] + before)[j] by {
                if i == 0 {
                    assert(before[j - 1] == (seq![new_head] + before)[j]);
                    assert(before.contains(before[j - 1]));
                }
            }
        }
        if !self.ate {
            pop_cell(&mut self.body);
            let ghost grown = seq![new_head] + before;
            assert(grown.drop_last().no_duplicates()) by {
                assert forall|i: int, j: int|
                    0 <= i < j < grown.len() - 1 implies grown.drop_last()[i]
                    != grown.drop_last()[j] by {
                    assert(grown.drop_last()[i] == grown[i]);
                    assert(grown.drop_last()[j] == grown[j]);
                }
            }
        } else {
            self.ate = false;
        }
        self.head_position = new_head;
    }

    /// Scores one point, defers one cell of growth to the next move, and takes
    /// the first food cell that equals the head, if there is one.
    pub fn eat(&mut self)
        requires
            old(self).score < 255,
        ensures
            old(self).ate_to(*final(self)),
            old(self).wf() ==> final(self).wf(),
    {
        self.score += 1;
        self.ate = true;
        let n = cell_count(&self.food);
        let mut found = false;
        let mut i: usize = 0;
        while i < n && !found
            invariant
                n == self.food_cells().len(),
                i <= n,
                found ==> i < n && self.food_cells()[i as int] == self.head_position,
                forall|j: int| 0 <= j < i ==> self.food_cells()[j] != self.head_position,
            decreases n - i + if found {
                0int
            } else {
                1int
            },
        {
            if cell_at(&self.food, i) == self.head_position {
                found = true;
            } else {
                i += 1;
            }
        }
        if found {
            remove_cell(&mut self.food, i);
        } else {
            assert(!self.food_cells().contains(self.head_position));
        }
    }

    /// Draws cells from the session's generator until one lies on neither the
    /// body nor the food, and appends it to the food (a full food sequence
    /// stays as it is). The search has no bound but the generator's own
    /// exhaustion after `MAX_FOOD_DRAWS` draws; on a crowded grid it can take
    /// very long.
    pub fn random_food_position(&mut self)
        requires
            0 < old(self).width,
            0 < old(self).height,
        ensures
            old(self).food_placed_to(*final(self)),
            final(self).food_cells().len() > old(self).food_cells().len() ==> ({
                let p = final(self).food_cells().last();
                &&& on_grid(p.x as int, p.y as int, old(self).width as int, old(self).height as int)
                &&& is_free(p, old(self).body_cells(), old(self).food_cells())
            }),
    {
        let mut left: u64 = MAX_FOOD_DRAWS;
        while left > 0
            invariant
                food_search(
                    old(self).rng,
                    old(self).width,
                    old(self).height,
                    old(self).body_cells(),
                    old(self).food_cells(),
                    MAX_FOOD_DRAWS as nat,
                ) == food_search(
                    self.rng,
                    self.width,
                    self.height,
                    self.body_cells(),
                    self.food_cells(),
                    left as nat,
                ),
                *self == (Snake { rng: self.rng, ..*old(self) }),
                0 < self.width,
                0 < self.height,
            decreases left,
        {
            let (x, s1) = draw_range(self.rng, 0, self.width as u32);
            let (y, s2) = draw_range(s1, 0, self.height as u32);
            self.rng = s2;
            let point = Point { x: x as i16, y: y as i16 };
            if !holds_cell(&self.body, point) && !holds_cell(&self.food, point) {
                push_cell(&mut self.food, point);
                return ;
            }
            left -= 1;
        }
    }
}

/// Eating and then moving by one cell lengthens the body by exactly one cell
/// and spends the pending growth.
pub proof fn lemma_eat_then_move_grows(start: Snake, fed: Snake, moved: Snake)
    requires
        start.wf(),
        start.ate_to(fed),
        fed.can_advance(),
        fed.moved_to(moved),
    ensures
        moved.body_cells().len() == start.body_cells().len() + 1,
        !moved.ate,
{
}

} // verus!
