//! The paddle-and-ball game: two clamped paddles, a ball that steps one
//! diagonal cell per tick, bounces off the walls and the paddles, and scores
//! past the goal lines.
use vstd::prelude::*;
use crate::half;
use crate::input::{JOY_LOWER_BOUND, JOY_UPPER_BOUND};
use crate::rng::{draw_range, range_draw, seed_state, seeded_state};

verus! {

/// Half the height of a paddle.
pub const PLAYER_SIZE: i16 = 4;

/// The score that wins a game.
pub const MAX_SCORE: u8 = 11;

/// How far a paddle moves in one tick.
pub const PLAYER_MOVE_DELTA: i16 = 2;

/// The diagonal the ball travels on; "upper" is towards larger `y`.
#[derive(Clone, Copy, Debug, PartialEq, Eq, Structural)]
pub enum PongDirection {
    UpperRight,
    LowerRight,
    UpperLeft,
    LowerLeft,
}

/// One of the two players: the first defends the left goal line, the second
/// the right one.
#[derive(Clone, Copy, Debug, PartialEq, Eq, Structural)]
pub enum PlayerTurn {
    Player1,
    Player2,
}

/// A pixel position.
#[derive(Clone, Copy, Debug, PartialEq, Eq, Structural)]
pub struct Point {
    pub x: i16,
    pub y: i16,
}

/// A game session.
pub struct Pong {
    pub width: i16,
    pub height: i16,
    pub ball: Point,
    pub ball_direction: PongDirection,
    pub player1: i16,
    pub player2: i16,
    pub player1_score: u8,
    pub player2_score: u8,
    pub is_running: bool,
    /// State of the session's seeded generator.
    pub rng: (u64, u64),
}

/// The direction that a drawn code selects: 1 to 4 name the four diagonals,
/// anything else is `UpperRight`.
pub open spec fn direction_of(code: u8) -> PongDirection {
    if code == 1 {
        PongDirection::UpperRight
    } else if code == 2 {
        PongDirection::LowerRight
    } else if code == 3 {
        PongDirection::LowerLeft
    } else if code == 4 {
        PongDirection::UpperLeft
    } else {
        PongDirection::UpperRight
    }
}

/// Whether the ball moves towards larger `y`.
pub open spec fn goes_up(d: PongDirection) -> bool {
    d == PongDirection::UpperRight || d == PongDirection::UpperLeft
}

/// The unit diagonal step of a direction.
pub open spec fn step_of(d: PongDirection) -> (int, int) {
    match d {
        PongDirection::UpperRight => (1, 1),
        PongDirection::LowerRight => (1, -1),
        PongDirection::LowerLeft => (-1, -1),
        PongDirection::UpperLeft => (-1, 1),
    }
}

/// `d` with its vertical component reversed.
pub open spec fn flip_vertical(d: PongDirection) -> PongDirection {
    match d {
        PongDirection::UpperRight => PongDirection::LowerRight,
        PongDirection::LowerRight => PongDirection::UpperRight,
        PongDirection::LowerLeft => PongDirection::UpperLeft,
        PongDirection::UpperLeft => PongDirection::LowerLeft,
    }
}

/// `d` with its horizontal component reversed.
pub open spec fn flip_horizontal(d: PongDirection) -> PongDirection {
    match d {
        PongDirection::UpperRight => PongDirection::UpperLeft,
        PongDirection::LowerRight => PongDirection::LowerLeft,
        PongDirection::LowerLeft => PongDirection::LowerRight,
        PongDirection::UpperLeft => PongDirection::UpperRight,
    }
}

/// How far a joystick reading moves a paddle.
pub open spec fn paddle_delta(value: i16) -> int {
    if value > JOY_UPPER_BOUND as i16 {
        PLAYER_MOVE_DELTA as int
    } else if value < JOY_LOWER_BOUND as i16 {
        -PLAYER_MOVE_DELTA
    } else {
        0
    }
}

/// `v` brought into `lo..=hi`.
pub open spec fn clamp(v: int, lo: int, hi: int) -> int {
    if v < lo {
        lo
    } else if v > hi {
        hi
    } else {
        v
    }
}

/// Absolute value.
pub open spec fn abs(v: int) -> int {
    if v < 0 {
        -v
    } else {
        v
    }
}

impl Pong {
    /// The session's invariant: the paddles fit, the ball's column is one
    /// step from overflow at most, and the ball's row stays on the field,
    /// moving up only below the top row and down only above the bottom one.
    pub open spec fn wf(&self) -> bool {
        &&& 2 * PLAYER_SIZE <= self.height
        &&& self.width < i16::MAX
        &&& i16::MIN < self.ball.x < i16::MAX
        &&& 0 <= self.ball.y <= self.height - 1
        &&& goes_up(self.ball_direction) ==> self.ball.y <= self.height - 2
        &&& !goes_up(self.ball_direction) ==> self.ball.y >= 1
    }

    /// A new session on a `width` by `height` field from generator seed `seed`.
    pub open spec fn fresh(width: i16, height: i16, seed: u64) -> Pong {
        Pong {
            width,
            height,
            ball: Point { x: half(width), y: half(height) },
            ball_direction: PongDirection::UpperRight,
            player1: half(height),
            player2: half(height),
            player1_score: 0,
            player2_score: 0,
            is_running: true,
            rng: seeded_state(seed),
        }.respawned()
    }

    /// This session after `which_player`'s paddle moves by reading `value`.
    pub open spec fn paddle_moved(self, which_player: PlayerTurn, value: i16) -> Pong {
        match which_player {
            PlayerTurn::Player1 => Pong {
                player1: clamp(
                    self.player1 + paddle_delta(value),
                    PLAYER_SIZE as int,
                    self.height - PLAYER_SIZE,
                ) as i16,
                ..self
            },
            PlayerTurn::Player2 => Pong {
                player2: clamp(
                    self.player2 + paddle_delta(value),
                    PLAYER_SIZE as int,
                    self.height - PLAYER_SIZE,
                ) as i16,
                ..self
            },
        }
    }

    /// This session after the win check.
    pub open spec fn win_checked(self) -> Pong {
        Pong {
            is_running: self.is_running && self.player1_score != MAX_SCORE && self.player2_score
                != MAX_SCORE,
            ..self
        }
    }

    /// The ball's next position before any bounce or score.
    pub open spec fn tentative(&self) -> (int, int) {
        (self.ball.x + step_of(self.ball_direction).0, self.ball.y + step_of(
            self.ball_direction,
        ).1)
    }

    /// This session after the ball is served again from the centre on a
    /// freshly drawn diagonal.
    pub open spec fn respawned(self) -> Pong {
        let (code, state) = range_draw(self.rng, 1, 5);
        Pong {
            ball: Point { x: half(self.width), y: half(self.height) },
            ball_direction: direction_of(code as u8),
            rng: state,
            ..self
        }
    }

    /// This session after one step of the ball.
    pub open spec fn ball_stepped(self) -> Pong {
        let (nx, ny) = self.tentative();
        let d1 = if ny <= 0 || ny >= self.height - 1 {
            flip_vertical(self.ball_direction)
        } else {
            self.ball_direction
        };
        let d2 = if (nx == 0 && abs(ny - self.player1) <= PLAYER_SIZE) || (nx == self.width - 1
            && abs(ny - self.player2) <= PLAYER_SIZE) {
            flip_horizontal(d1)
        } else {
            d1
        };
        if nx < 0 {
            Pong { player2_score: (self.player2_score + 1) as u8, ..self }.respawned()
        } else if nx > self.width {
            Pong { player1_score: (self.player1_score + 1) as u8, ..self }.respawned()
        } else {
            Pong { ball: Point { x: nx as i16, y: ny as i16 }, ball_direction: d2, ..self }
        }
    }

    /// A session on a `width` by `height` field: paddles and ball centred,
    /// scores nil, running, and the ball on a diagonal drawn from the
    /// generator seeded with `seed`.
    pub fn new(width: i16, height: i16, seed: u64) -> (r: Pong)
        requires
            2 * PLAYER_SIZE <= height,
            width < i16::MAX,
        ensures
            r.wf(),
            r == Pong::fresh(width, height, seed),
    {
        let mut pong = Pong {
            width,
            height,
            ball: Point { x: width / 2, y: height / 2 },
            ball_direction: PongDirection::UpperRight,
            player1: height / 2,
            player2: height / 2,
            player1_score: 0,
            player2_score: 0,
            is_running: true,
            rng: seed_state(seed),
        };
        let direction = pong.random_direction();
        pong.set_ball_direction(direction);
        pong
    }

    /// Draws a direction code, 1 to 4, each diagonal alike.
    pub fn random_direction(&mut self) -> (r: u8)
        ensures
            1 <= r <= 4,
            r as u32 == range_draw(old(self).rng, 1, 5).0,
            *final(self) == (Pong { rng: range_draw(old(self).rng, 1, 5).1, ..*old(self) }),
    {
        let (v, state) = draw_range(self.rng, 1, 5);
        self.rng = state;
        v as u8
    }

    /// Sets the ball's direction from a code (see `direction_of`).
    pub fn set_ball_direction(&mut self, direction: u8)
        ensures
            *final(self) == (Pong { ball_direction: direction_of(direction), ..*old(self) }),
    {
        self.ball_direction = match direction {
            1 => PongDirection::UpperRight,
            2 => PongDirection::LowerRight,
            3 => PongDirection::LowerLeft,
            4 => PongDirection::UpperLeft,
            _ => PongDirection::UpperRight,
        };
    }

    /// Reverses the ball's vertical component, as a wall does.
    pub fn change_at_wall(&mut self)
        ensures
            *final(self) == (Pong {
                ball_direction: flip_vertical(old(self).ball_direction),
                ..*old(self)
            }),
    {
        self.ball_direction = match self.ball_direction {
            PongDirection::UpperRight => PongDirection::LowerRight,
            PongDirection::LowerRight => PongDirection::UpperRight,
            PongDirection::LowerLeft => PongDirection::UpperLeft,
            PongDirection::UpperLeft => PongDirection::LowerLeft,
        };
    }

    /// Reverses the ball's horizontal component, as a paddle does.
    pub fn change_at_player(&mut self)
        ensures
            *final(self) == (Pong {
                ball_direction: flip_horizontal(old(self).ball_direction),
                ..*old(self)
            }),
    {
        self.ball_direction = match self.ball_direction {
            PongDirection::UpperRight => PongDirection::UpperLeft,
            PongDirection::LowerRight => PongDirection::LowerLeft,
            PongDirection::LowerLeft => PongDirection::LowerRight,
            PongDirection::UpperLeft => PongDirection::UpperRight,
        };
    }

    /// Moves a paddle by the joystick reading `value`: up a step above the
    /// upper bound, down a step below the lower one, and keeps it within
    /// `PLAYER_SIZE..=height - PLAYER_SIZE`.
    pub fn move_player(&mut self, which_player: PlayerTurn, value: i16)
        requires
            2 * PLAYER_SIZE <= old(self).height,
        ensures
            *final(self) == old(self).paddle_moved(which_player, value),
    {
        let dy: i32 = if value > JOY_UPPER_BOUND as i16 {
            PLAYER_MOVE_DELTA as i32
        } else if value < JOY_LOWER_BOUND as i16 {
            -(PLAYER_MOVE_DELTA as i32)
        } else {
            0
        };
        let lo: i32 = PLAYER_SIZE as i32;
        let hi: i32 = self.height as i32 - PLAYER_SIZE as i32;
        let current: i32 = match which_player {
            PlayerTurn::Player1 => self.player1 as i32,
            PlayerTurn::Player2 => self.player2 as i32,
        };
        let moved: i32 = current + dy;
        let placed: i16 = if moved < lo {
            lo as i16
        } else if moved > hi {
            hi as i16
        } else {
            moved as i16
        };
        match which_player {
            PlayerTurn::Player1 => self.player1 = placed,
            PlayerTurn::Player2 => self.player2 = placed,
        }
    }

    /// Gives `which_player` a point.
    pub fn score(&mut self, which_player: PlayerTurn)
        requires
            old(self).player1_score < 255,
            old(self).player2_score < 255,
        ensures
            which_player == PlayerTurn::Player1 ==> *final(self) == (Pong {
                player1_score: (old(self).player1_score + 1) as u8,
                ..*old(self)
            }),
            which_player == PlayerTurn::Player2 ==> *final(self) == (Pong {
                player2_score: (old(self).player2_score + 1) as u8,
                ..*old(self)
            }),
    {
        match which_player {
            PlayerTurn::Player1 => self.player1_score += 1,
            PlayerTurn::Player2 => self.player2_score += 1,
        }
    }

    /// Stops the game once a score equals `MAX_SCORE`.
    pub fn check_for_win(&mut self)
        ensures
            *final(self) == old(self).win_checked(),
    {
        if self.player1_score == MAX_SCORE || self.player2_score == MAX_SCORE {
            self.is_running = false
        }
    }

    /// Serves the ball again from the centre on a freshly drawn diagonal.
    pub fn spawn_ball(&mut self)
        ensures
            *final(self) == old(self).respawned(),
    {
        let direction = self.random_direction();
        self.set_ball_direction(direction);
        self.ball = Point { x: self.width / 2, y: self.height / 2 };
    }

    /// Advances the ball one diagonal step: a wall reverses its vertical
    /// component, a paddle at a goal line its horizontal one, and a ball past
    /// a goal line scores for the other player and is served again.
    pub fn update_ball(&mut self)
        requires
            old(self).wf(),
            old(self).player1_score < 255,
            old(self).player2_score < 255,
        ensures
            final(self).wf(),
            *final(self) == old(self).ball_stepped(),
    {
        let (next_x, next_y) = match self.ball_direction {
            PongDirection::UpperRight => (self.ball.x + 1, self.ball.y + 1),
            PongDirection::LowerRight => (self.ball.x + 1, self.ball.y - 1),
            PongDirection::LowerLeft => (self.ball.x - 1, self.ball.y - 1),
            PongDirection::UpperLeft => (self.ball.x - 1, self.ball.y + 1),
        };
        if next_y <= 0 || next_y >= self.height - 1 {
            self.change_at_wall();
        }
        let gap1: i32 = next_y as i32 - self.player1 as i32;
        let gap2: i32 = next_y as i32 - self.player2 as i32;
        let dist1: i32 = if gap1 < 0 {
            -gap1
        } else {
            gap1
        };
        let dist2: i32 = if gap2 < 0 {
            -gap2
        } else {
            gap2
        };
        if (next_x == 0 && dist1 <= PLAYER_SIZE as i32) || (next_x as i32 == self.width as i32 - 1 && dist2
            <= PLAYER_SIZE as i32) {
            self.change_at_player();
        }
        if next_x < 0 {
            self.score(PlayerTurn::Player2);
            self.spawn_ball();
            return ;
        } else if next_x > self.width {
            self.score(PlayerTurn::Player1);
            self.spawn_ball();
            return ;
        }
        self.ball = Point { x: next_x, y: next_y };
    }
}

/// A paddle moved by any reading from any position stays within
/// `PLAYER_SIZE..=height - PLAYER_SIZE`, and the reading moves it by exactly
/// one step up, one step down, or not at all, as it lies above, below or
/// between the joystick bounds.
pub proof fn lemma_paddle_stays_on_field(position: i16, value: i16, height: i16)
    requires
        2 * PLAYER_SIZE <= height,
    ensures
        PLAYER_SIZE <= clamp(position + paddle_delta(value), PLAYER_SIZE as int, height - PLAYER_SIZE)
            <= height - PLAYER_SIZE,
        value > JOY_UPPER_BOUND ==> paddle_delta(value) == PLAYER_MOVE_DELTA,
        value < JOY_LOWER_BOUND ==> paddle_delta(value) == -PLAYER_MOVE_DELTA,
        JOY_LOWER_BOUND <= value <= JOY_UPPER_BOUND ==> paddle_delta(value) == 0,
{
}

/// Away from the walls, the goal lines and the paddles' columns, one step of
/// the ball moves it by exactly its direction's diagonal and changes nothing
/// else: no bounce, no score.
pub proof fn lemma_free_flight(pong: Pong)
    requires
        pong.wf(),
        0 < pong.tentative().0 < pong.width - 1,
        0 < pong.tentative().1 < pong.height - 1,
    ensures
        pong.ball_stepped() == (Pong {
            ball: Point {
                x: (pong.ball.x + step_of(pong.ball_direction).0) as i16,
                y: (pong.ball.y + step_of(pong.ball_direction).1) as i16,
            },
            ..pong
        }),
{
}

/// A ball whose next column lies left of the field gives the right-hand
/// player exactly one point, leaves the other score alone, and is served
/// again from the centre on the diagonal that the generator draws next.
pub proof fn lemma_left_goal_scores(pong: Pong)
    requires
        pong.wf(),
        pong.tentative().0 < 0,
        pong.player2_score < 255,
    ensures
        pong.ball_stepped().player2_score == pong.player2_score + 1,
        pong.ball_stepped().player1_score == pong.player1_score,
        pong.ball_stepped().ball == (Point { x: half(pong.width), y: half(pong.height) }),
        pong.ball_stepped().ball_direction == direction_of(range_draw(pong.rng, 1, 5).0 as u8),
        pong.ball_stepped().rng == range_draw(pong.rng, 1, 5).1,
{
}

} // verus!
