//! The game engine: phase state machine, simulation ticks, eating and
//! scoring, and food spawning.

use vstd::prelude::*;

use crate::snake::{
    Block, Direction, Snake, SnakeView, eff_dir, hits_tail, initial_snake, opposite_dir,
    step_cell,
};

verus! {

/// The phase of the game: running, paused, or over until a restart.
#[derive(Copy, Clone, PartialEq, Eq, Structural, Debug)]
pub enum GameState {
    Running,
    Paused,
    GameOver,
}

/// A decoded input event. The host translates raw key presses into these;
/// anything it cannot decode arrives as `Other` and is ignored.
#[derive(Copy, Clone, PartialEq, Eq, Structural, Debug)]
pub enum GameKey {
    Pause,
    Restart,
    Up,
    Down,
    Left,
    Right,
    Other,
}

/// Points per eaten food before any bonus.
pub const POINTS_PER_LEVEL: u64 = 5;

/// Milliseconds between timed ticks at level 0 (the curve starts at level 1).
pub const BASE_SPEED_MS: u64 = 150;

/// By how many milliseconds each level shortens the tick interval.
pub const SPEED_STEP_MS: u64 = 10;

/// The shortest tick interval: the speed curve is floored here.
pub const MIN_SPEED_MS: u64 = 50;

/// Random draws attempted when spawning food before giving up for this tick.
pub const SPAWN_TRIES: u32 = 128;

/// The mathematical value of a [`Game`].
pub struct GameView {
    pub snake: SnakeView,
    pub food: Option<Block>,
    pub bonus: bool,
    pub width: int,
    pub height: int,
    pub score: int,
    pub level: int,
    pub waiting_ms: int,
    pub phase: GameState,
}

/// Is `c` strictly inside the border ring of a `w` by `h` grid?
pub open spec fn cell_interior(c: Block, w: int, h: int) -> bool {
    0 < c.x < w - 1 && 0 < c.y < h - 1
}

/// Milliseconds a timed tick waits at `level`: the base interval shortened
/// by one step per level, floored at the minimum.
pub open spec fn speed_ms(level: int) -> int {
    if level >= 10 {
        MIN_SPEED_MS as int
    } else {
        BASE_SPEED_MS - SPEED_STEP_MS * level
    }
}

/// Points awarded for one food item.
pub open spec fn points_of(bonus: bool) -> int {
    if bonus {
        3
    } else {
        1
    }
}

/// The cell the head would move to under an optional heading override.
pub open spec fn next_head_of(v: GameView, d: Option<Direction>) -> Block {
    step_cell(v.snake.body[0], eff_dir(v.snake.dir, d))
}

/// A move is lethal when the candidate head cell hits a non-head body cell
/// or lies on or beyond a border wall.
pub open spec fn move_is_lethal(v: GameView, d: Option<Direction>) -> bool {
    let nh = next_head_of(v, d);
    hits_tail(v.snake.body, nh.x, nh.y) || !cell_interior(nh, v.width, v.height)
}

impl GameView {
    /// Everything [`wf`](Self::wf) holds except the bound on the wait
    /// accumulator, which a tick in progress may exceed for a moment.
    pub open spec fn wf_core(self) -> bool {
        &&& 8 <= self.width <= i32::MAX
        &&& 6 <= self.height <= i32::MAX
        &&& self.snake.body.len() >= 3
        &&& (forall|i: int|
            0 <= i < self.snake.body.len() ==> cell_interior(
                #[trigger] self.snake.body[i],
                self.width,
                self.height,
            ))
        &&& self.snake.body.no_duplicates()
        &&& (self.food matches Some(f) ==> cell_interior(f, self.width, self.height)
            && !self.snake.body.contains(f))
        &&& 0 <= self.score <= 3 * (self.snake.body.len() - 3)
        &&& 1 <= self.level <= self.score + 1
    }

    /// Well-formedness of a reachable engine state: the body has at least
    /// three pairwise distinct interior cells, food (if present) sits on a
    /// free interior cell, score and level respect their growth bounds, and
    /// the wait accumulator never exceeds the base tick interval.
    pub open spec fn wf(self) -> bool {
        &&& self.wf_core()
        &&& 0 <= self.waiting_ms <= BASE_SPEED_MS
    }

    /// This state with a moved snake and everything else unchanged.
    pub open spec fn with_snake(self, s: SnakeView) -> GameView {
        GameView {
            snake: s,
            food: self.food,
            bonus: self.bonus,
            width: self.width,
            height: self.height,
            score: self.score,
            level: self.level,
            waiting_ms: self.waiting_ms,
            phase: self.phase,
        }
    }
}

/// The state after the eating check: if food exists and the head sits on it,
/// the food is consumed, the remembered tail cell regrows the snake by one,
/// the score gains one point (three for bonus food), the bonus flag clears,
/// and the level rises by one exactly when the new score is a positive
/// multiple of [`POINTS_PER_LEVEL`].
pub open spec fn after_eating(v: GameView) -> GameView {
    match v.food {
        Some(f) => {
            if v.snake.body[0] == f {
                let s2 = v.score + points_of(v.bonus);
                GameView {
                    snake: v.snake.after_restore(),
                    food: None,
                    bonus: false,
                    width: v.width,
                    height: v.height,
                    score: s2,
                    level: if s2 > 0 && s2 % (POINTS_PER_LEVEL as int) == 0 {
                        v.level + 1
                    } else {
                        v.level
                    },
                    waiting_ms: v.waiting_ms,
                    phase: v.phase,
                }
            } else {
                v
            }
        },
        None => v,
    }
}

/// One movement tick under an optional heading override: a lethal move ends
/// the game with nothing else changed; a safe move commits the step and runs
/// the eating check. Either way the wait accumulator resets to zero.
pub open spec fn game_step(v: GameView, d: Option<Direction>) -> GameView {
    if move_is_lethal(v, d) {
        GameView {
            snake: v.snake,
            food: v.food,
            bonus: v.bonus,
            width: v.width,
            height: v.height,
            score: v.score,
            level: v.level,
            waiting_ms: 0,
            phase: GameState::GameOver,
        }
    } else {
        let e = after_eating(v.with_snake(v.snake.after_move(d)));
        GameView {
            snake: e.snake,
            food: e.food,
            bonus: e.bonus,
            width: e.width,
            height: e.height,
            score: e.score,
            level: e.level,
            waiting_ms: 0,
            phase: e.phase,
        }
    }
}

/// The pause toggle: a running game pauses and a paused game runs. A
/// finished game accepts the input but stays over — only restart leaves
/// that phase.
pub open spec fn pause_toggled(v: GameView) -> GameView {
    GameView {
        snake: v.snake,
        food: v.food,
        bonus: v.bonus,
        width: v.width,
        height: v.height,
        score: v.score,
        level: v.level,
        waiting_ms: v.waiting_ms,
        phase: match v.phase {
            GameState::Running => GameState::Paused,
            GameState::Paused => GameState::Running,
            GameState::GameOver => GameState::GameOver,
        },
    }
}

/// The initial configuration on a `w` by `h` grid: the three-cell snake at
/// `(2, 2)` heading right, food at `(6, 4)`, score 0, level 1, accumulator
/// 0, running.
pub open spec fn initial_view(w: int, h: int) -> GameView {
    GameView {
        snake: initial_snake(2, 2),
        food: Some(Block { x: 6, y: 4 }),
        bonus: false,
        width: w,
        height: h,
        score: 0,
        level: 1,
        waiting_ms: 0,
        phase: GameState::Running,
    }
}

/// The heading a directional key asks for, if it is one.
pub open spec fn dir_of_key(k: GameKey) -> Option<Direction> {
    match k {
        GameKey::Up => Some(Direction::Up),
        GameKey::Down => Some(Direction::Down),
        GameKey::Left => Some(Direction::Left),
        GameKey::Right => Some(Direction::Right),
        _ => None,
    }
}

/// The state after one key press: pause toggles the phase, restart rebuilds
/// the initial configuration, and a directional key triggers an immediate
/// movement tick — but only while running, and never toward the opposite of
/// the current heading; every other combination changes nothing.
pub open spec fn after_key(v: GameView, k: GameKey) -> GameView {
    match k {
        GameKey::Pause => pause_toggled(v),
        GameKey::Restart => initial_view(v.width, v.height),
        _ => match dir_of_key(k) {
            Some(d) => {
                if v.phase == GameState::Running && d != opposite_dir(v.snake.dir) {
                    game_step(v, Some(d))
                } else {
                    v
                }
            },
            None => v,
        },
    }
}

/// What a food spawn may produce from state `v`: when food already exists
/// nothing changes; otherwise either a spawn succeeded on some free interior
/// cell (with either bonus flag), or every draw failed and food stays
/// absent.
pub open spec fn spawn_admissible(v: GameView, f: Option<Block>, b: bool) -> bool {
    if v.food is Some {
        f == v.food && b == v.bonus
    } else {
        match f {
            Some(c) => cell_interior(c, v.width, v.height) && !v.snake.body.contains(c),
            None => b == v.bonus,
        }
    }
}

/// The state one frame after `v`, given the food spawn outcome `(f, b)` and
/// the elapsed `delta` milliseconds: the accumulator accrues, the spawn
/// outcome lands, and if the accumulated wait exceeds the level's tick
/// interval one timed movement tick runs.
pub open spec fn after_update(v: GameView, f: Option<Block>, b: bool, delta: int) -> GameView {
    let v1 = GameView {
        snake: v.snake,
        food: f,
        bonus: b,
        width: v.width,
        height: v.height,
        score: v.score,
        level: v.level,
        waiting_ms: v.waiting_ms + delta,
        phase: v.phase,
    };
    if v1.waiting_ms > speed_ms(v.level) {
        game_step(v1, None)
    } else {
        v1
    }
}

/// The type of rand's handle to the thread-local generator, left opaque.
#[verifier::external_type_specification]
#[verifier::external_body]
pub struct ExThreadRng(rand::rngs::ThreadRng);

/// Relies on `rand::thread_rng`: hands back the thread-local, system-seeded
/// generator. Nothing can be promised of it.
#[verifier::external_body]
fn fresh_rng() -> rand::rngs::ThreadRng {
    rand::thread_rng()
}

/// Relies on `rand::Rng::gen_range` over a half-open `i32` range: it returns
/// a uniformly distributed value in `[low, high)` and panics on an empty
/// range, so a non-empty one is required. Of the drawn value only membership
/// in the range holds on every outcome.
#[verifier::external_body]
fn rand_in_range(rng: &mut rand::rngs::ThreadRng, low: i32, high: i32) -> (r: i32)
    requires
        low < high,
    ensures
        low <= r < high,
{
    rand::Rng::gen_range(rng, low..high)
}

/// Pairwise distinct interior cells of a `w` by `h` grid number at most one
/// per interior position, so a duplicate-free body can never outgrow the
/// interior.
pub proof fn lemma_distinct_interior_len(body: Seq<Block>, w: int, h: int)
    requires
        2 <= w,
        2 <= h,
        forall|i: int| 0 <= i < body.len() ==> cell_interior(#[trigger] body[i], w, h),
        body.no_duplicates(),
    ensures
        body.len() <= (w - 2) * (h - 2),
{
    let cw = w - 2;
    let ch = h - 2;
    let code = |c: Block| (c.y - 1) * cw + (c.x - 1);
    let codes = body.map_values(code);
    assert forall|i: int, j: int|
        0 <= i < codes.len() && 0 <= j < codes.len() && i != j implies codes[i] != codes[j] by {
        let a = body[i];
        let b = body[j];
        assert(a != b);
        let ax = a.x - 1;
        let ay = a.y - 1;
        let bx = b.x - 1;
        let by = b.y - 1;
        assert(ay * cw + ax != by * cw + bx) by (nonlinear_arith)
            requires
                0 <= ax < cw,
                0 <= bx < cw,
                ax != bx || ay != by,
        ;
    }
    assert(codes.no_duplicates());
    codes.unique_seq_to_set();
    assert forall|v: int| codes.to_set().contains(v) implies vstd::set_lib::set_int_range(
        0,
        cw * ch,
    ).contains(v) by {
        let i = choose|i: int| 0 <= i < codes.len() && codes[i] == v;
        let c = body[i];
        assert(0 <= (c.y - 1) * cw + (c.x - 1) < cw * ch) by (nonlinear_arith)
            requires
                0 <= c.x - 1 < cw,
                0 <= c.y - 1 < ch,
        ;
    }
    vstd::set_lib::lemma_int_range(0, cw * ch);
    vstd::set_lib::lemma_len_subset(codes.to_set(), vstd::set_lib::set_int_range(0, cw * ch));
}

/// One movement tick keeps the state well formed and resets the wait
/// accumulator: the committed head cell is a free interior cell, a regrown
/// tail cell is free again, and score and level keep their growth bounds.
pub proof fn lemma_step_preserves_wf(v: GameView, d: Option<Direction>)
    requires
        v.wf_core(),
    ensures
        game_step(v, d).wf_core(),
        game_step(v, d).waiting_ms == 0,
{
    if !move_is_lethal(v, d) {
        let nh = next_head_of(v, d);
        let body = v.snake.body;
        let n = body.len();
        let moved = v.snake.after_move(d);
        let b1 = moved.body;
        assert(cell_interior(body[0], v.width, v.height));
        assert(nh != body[0]) by {
            let hd = body[0];
            match eff_dir(v.snake.dir, d) {
                Direction::Up => {
                    assert(nh.y == hd.y - 1);
                },
                Direction::Down => {
                    assert(nh.y == hd.y + 1);
                },
                Direction::Left => {
                    assert(nh.x == hd.x - 1);
                },
                Direction::Right => {
                    assert(nh.x == hd.x + 1);
                },
            }
        }
        assert(b1.len() == n);
        assert(b1[0] == nh);
        assert(forall|i: int| 1 <= i < n ==> b1[i] == body[i - 1]);
        assert(cell_interior(nh, v.width, v.height));
        assert forall|i: int, j: int|
            0 <= i < n && 0 <= j < n && i != j implies b1[i] != b1[j] by {
            if i >= 1 && j >= 1 {
                assert(b1[i] == body[i - 1] && b1[j] == body[j - 1]);
            } else if i == 0 && j >= 1 {
                if j - 1 >= 1 {
                    assert(!hits_tail(body, nh.x, nh.y));
                    assert(b1[j] == body[j - 1]);
                }
            } else if j == 0 && i >= 1 {
                if i - 1 >= 1 {
                    assert(!hits_tail(body, nh.x, nh.y));
                    assert(b1[i] == body[i - 1]);
                }
            }
        }
        assert(b1.no_duplicates());
        match v.food {
            Some(f) => {
                if nh == f {
                    // the eating path: the remembered tail cell regrows
                    let t = body.last();
                    assert(body.contains(body[n - 1]));
                    assert(t != f);
                    let b2 = moved.after_restore().body;
                    assert(b2 == b1.push(t));
                    assert(b2.len() == n + 1);
                    assert forall|i: int, j: int|
                        0 <= i < n + 1 && 0 <= j < n + 1 && i != j implies b2[i] != b2[j] by {
                        if i < n && j < n {
                            assert(b2[i] == b1[i] && b2[j] == b1[j]);
                        } else if j == n && i < n {
                            assert(b2[j] == t && b2[i] == b1[i]);
                            if i >= 1 {
                                assert(b1[i] == body[i - 1]);
                            }
                        } else if i == n && j < n {
                            assert(b2[i] == t && b2[j] == b1[j]);
                            if j >= 1 {
                                assert(b1[j] == body[j - 1]);
                            }
                        }
                    }
                    assert(b2.no_duplicates());
                } else {
                    assert forall|i: int| 0 <= i < n implies b1[i] != f by {
                        if i >= 1 {
                            assert(b1[i] == body[i - 1]);
                            if body[i - 1] == f {
                                assert(body.contains(f));
                            }
                        }
                    }
                    assert(!b1.contains(f)) by {
                        if b1.contains(f) {
                            let i = choose|i: int| 0 <= i < b1.len() && b1[i] == f;
                        }
                    }
                }
            },
            None => {},
        }
    }
}

/// The initial configuration on any admissible grid is well formed.
pub proof fn lemma_initial_wf(w: int, h: int)
    requires
        8 <= w <= i32::MAX,
        6 <= h <= i32::MAX,
    ensures
        initial_view(w, h).wf(),
{
    let v = initial_view(w, h);
    let body = v.snake.body;
    assert(body[0] == Block { x: 4, y: 2 });
    assert(body[1] == Block { x: 3, y: 2 });
    assert(body[2] == Block { x: 2, y: 2 });
    assert forall|i: int| 0 <= i < body.len() implies cell_interior(
        #[trigger] body[i],
        v.width,
        v.height,
    ) by {
        assert(i == 0 || i == 1 || i == 2);
    }
    assert forall|i: int| 0 <= i < body.len() implies body[i] != (Block { x: 6, y: 4 }) by {
        assert(i == 0 || i == 1 || i == 2);
    }
    assert(!body.contains(Block { x: 6, y: 4 })) by {
        if body.contains(Block { x: 6, y: 4 }) {
            let i = choose|i: int| 0 <= i < body.len() && body[i] == (Block { x: 6, y: 4 });
        }
    }
    assert(body.no_duplicates()) by {
        assert forall|i: int, j: int|
            0 <= i < body.len() && 0 <= j < body.len() && i != j implies body[i] != body[j] by {
            assert((i == 0 || i == 1 || i == 2) && (j == 0 || j == 1 || j == 2));
        }
    }
}

/// The game engine: it owns the snake, the food, score, level, the wait
/// accumulator and the phase, and advances them on key events and elapsed
/// time.
pub struct Game {
    snake: Snake,
    food: Option<Block>,
    bonus_food: bool,
    width: i32,
    height: i32,
    score: u64,
    level: u64,
    waiting_ms: u64,
    state: GameState,
}

impl View for Game {
    type V = GameView;

    closed spec fn view(&self) -> GameView {
        GameView {
            snake: self.snake@,
            food: self.food,
            bonus: self.bonus_food,
            width: self.width as int,
            height: self.height as int,
            score: self.score as int,
            level: self.level as int,
            waiting_ms: self.waiting_ms as int,
            phase: self.state,
        }
    }
}

impl Game {
    /// A new game on a `width` by `height` grid in the initial
    /// configuration. The grid must leave the starting snake and the
    /// starting food inside the border ring.
    pub fn new(width: i32, height: i32) -> (r: Game)
        requires
            width >= 8,
            height >= 6,
        ensures
            r@ == initial_view(width as int, height as int),
            r@.wf(),
    {
        let r = Game {
            snake: Snake::new(2, 2),
            food: Some(Block { x: 6, y: 4 }),
            bonus_food: false,
            width,
            height,
            score: 0,
            level: 1,
            waiting_ms: 0,
            state: GameState::Running,
        };
        proof {
            lemma_initial_wf(width as int, height as int);
        }
        r
    }

    /// Rebuild the initial configuration: fresh snake, food at `(6, 4)`,
    /// score 0, level 1, accumulator 0, running.
    pub fn restart(&mut self)
        requires
            old(self)@.width >= 8,
            old(self)@.height >= 6,
        ensures
            final(self)@ == initial_view(old(self)@.width, old(self)@.height),
            final(self)@.wf(),
    {
        self.snake = Snake::new(2, 2);
        self.waiting_ms = 0;
        self.food = Some(Block { x: 6, y: 4 });
        self.bonus_food = false;
        self.score = 0;
        self.level = 1;
        self.state = GameState::Running;
        proof {
            lemma_initial_wf(old(self)@.width, old(self)@.height);
        }
    }

    /// Read access to the snake, for drawing.
    pub fn snake(&self) -> (r: &Snake)
        ensures
            r@ == self@.snake,
    {
        &self.snake
    }

    /// The current food cell, if one exists.
    pub fn food(&self) -> (r: Option<Block>)
        ensures
            r == self@.food,
    {
        self.food
    }

    /// Is the current food worth the bonus?
    pub fn bonus_food(&self) -> (r: bool)
        ensures
            r == self@.bonus,
    {
        self.bonus_food
    }

    /// The current score.
    pub fn score(&self) -> (r: u64)
        ensures
            r as int == self@.score,
    {
        self.score
    }

    /// The current level.
    pub fn level(&self) -> (r: u64)
        ensures
            r as int == self@.level,
    {
        self.level
    }

    /// The current phase.
    pub fn game_state(&self) -> (r: GameState)
        ensures
            r == self@.phase,
    {
        self.state
    }

    /// The grid width.
    pub fn width(&self) -> (r: i32)
        ensures
            r as int == self@.width,
    {
        self.width
    }

    /// The grid height.
    pub fn height(&self) -> (r: i32)
        ensures
            r as int == self@.height,
    {
        self.height
    }

    /// Lookahead: would a move under `dir` keep the snake alive?
    fn check_if_snake_alive(&self, dir: Option<Direction>) -> (r: bool)
        requires
            self@.wf_core(),
        ensures
            r == !move_is_lethal(self@, dir),
    {
        proof {
            assert(cell_interior(self@.snake.body[0], self@.width, self@.height));
        }
        let (next_x, next_y) = self.snake.next_head(dir);
        !self.snake.overlap_tail(next_x, next_y) && next_x > 0 && next_y > 0 && next_x
            < self.width - 1 && next_y < self.height - 1
    }

    /// The eating check after a committed move: consume food under the head,
    /// regrow, score, and level up on each crossing of a multiple of
    /// [`POINTS_PER_LEVEL`].
    fn check_eating(&mut self)
        requires
            old(self)@.snake.wf(),
            old(self)@.score + 3 <= u64::MAX,
            old(self)@.level + 1 <= u64::MAX,
        ensures
            final(self)@ == after_eating(old(self)@),
    {
        let (head_x, head_y) = self.snake.head_position();
        let eats = match &self.food {
            Some(f) => f.x == head_x && f.y == head_y,
            None => false,
        };
        if eats {
            self.food = None;
            self.snake.restore_tail();
            let pts: u64 = if self.bonus_food {
                3
            } else {
                1
            };
            self.score = self.score + pts;
            self.bonus_food = false;
            if self.score > 0 && self.score % POINTS_PER_LEVEL == 0 {
                self.level = self.level + 1;
            }
        }
    }

    /// One movement tick: commit the move if it is safe and run the eating
    /// check, else end the game; reset the wait accumulator either way.
    fn update_snake(&mut self, dir: Option<Direction>)
        requires
            old(self)@.wf_core(),
        ensures
            final(self)@ == game_step(old(self)@, dir),
            final(self)@.wf_core(),
            final(self)@.waiting_ms == 0,
    {
        proof {
            lemma_step_preserves_wf(old(self)@, dir);
        }
        if self.check_if_snake_alive(dir) {
            proof {
                lemma_distinct_interior_len(self@.snake.body, self@.width, self@.height);
                let w = self@.width;
                let h = self@.height;
                assert((w - 2) * (h - 2) <= 0x4000_0000_0000_0000int) by (nonlinear_arith)
                    requires
                        2 <= w <= 0x8000_0000,
                        2 <= h <= 0x8000_0000,
                ;
            }
            self.snake.move_forward(dir);
            self.check_eating();
        } else {
            self.state = GameState::GameOver;
        }
        self.waiting_ms = 0;
    }

    /// Apply one decoded key press: pause toggles between running and
    /// paused (accepted after game over too, where it changes nothing),
    /// restart rebuilds the initial configuration from any state, and a
    /// directional key triggers an immediate movement tick — only while
    /// running, and never toward the opposite of the current heading. Any
    /// other key changes nothing.
    pub fn key_pressed(&mut self, key: GameKey)
        requires
            old(self)@.wf(),
        ensures
            final(self)@ == after_key(old(self)@, key),
            final(self)@.wf(),
    {
        match key {
            GameKey::Pause => {
                self.state = match self.state {
                    GameState::Running => GameState::Paused,
                    GameState::Paused => GameState::Running,
                    GameState::GameOver => GameState::GameOver,
                };
            },
            GameKey::Restart => {
                self.restart();
            },
            _ => {
                if self.state == GameState::Running {
                    let dir = match key {
                        GameKey::Up => Some(Direction::Up),
                        GameKey::Down => Some(Direction::Down),
                        GameKey::Left => Some(Direction::Left),
                        GameKey::Right => Some(Direction::Right),
                        _ => None,
                    };
                    match dir {
                        Some(d) => {
                            if d != self.snake.head_direction().opposite() {
                                self.update_snake(Some(d));
                            }
                        },
                        None => {},
                    }
                }
            },
        }
    }

    /// Spawn food on a random free interior cell: up to [`SPAWN_TRIES`]
    /// uniform draws are made and the first one that misses the snake body
    /// is taken, with a one-in-five draw deciding the bonus flag. When every
    /// draw lands on the body — possible only on a crowded board — the spawn
    /// is skipped for this tick and retried on the next one.
    fn add_food(&mut self)
        requires
            old(self)@.wf_core(),
            old(self)@.food is None,
        ensures
            final(self)@.wf_core(),
            spawn_admissible(old(self)@, final(self)@.food, final(self)@.bonus),
            final(self)@.snake == old(self)@.snake,
            final(self)@.width == old(self)@.width,
            final(self)@.height == old(self)@.height,
            final(self)@.score == old(self)@.score,
            final(self)@.level == old(self)@.level,
            final(self)@.waiting_ms == old(self)@.waiting_ms,
            final(self)@.phase == old(self)@.phase,
    {
        let mut rng = fresh_rng();
        let (head_x, head_y) = self.snake.head_position();
        let mut tries: u32 = 0;
        while tries < SPAWN_TRIES
            invariant
                self@ == old(self)@,
                old(self)@.wf_core(),
                old(self)@.food is None,
                head_x == old(self)@.snake.body[0].x,
                head_y == old(self)@.snake.body[0].y,
            decreases SPAWN_TRIES - tries,
        {
            let new_x = rand_in_range(&mut rng, 1, self.width - 1);
            let new_y = rand_in_range(&mut rng, 1, self.height - 1);
            if !self.snake.overlap_tail(new_x, new_y) && !(new_x == head_x && new_y == head_y) {
                let c = Block { x: new_x, y: new_y };
                proof {
                    let body = old(self)@.snake.body;
                    assert forall|i: int| 0 <= i < body.len() implies body[i] != c by {
                        if i >= 1 {
                            assert(!(body[i].x == new_x && body[i].y == new_y));
                        }
                    }
                    assert(!body.contains(c)) by {
                        if body.contains(c) {
                            let i = choose|i: int| 0 <= i < body.len() && body[i] == c;
                        }
                    }
                }
                self.food = Some(c);
                self.bonus_food = rand_in_range(&mut rng, 0, 5) == 0;
                return;
            }
            tries += 1;
        }
    }

    /// Advance the simulation by `delta_ms` milliseconds of elapsed time.
    /// Outside the running phase nothing changes at all. While running, the
    /// wait accumulator accrues, missing food is spawned, and once the
    /// accumulated wait exceeds the level's tick interval one timed movement
    /// tick runs in the current heading.
    pub fn update(&mut self, delta_ms: u64)
        requires
            old(self)@.wf(),
            delta_ms <= u64::MAX - BASE_SPEED_MS,
        ensures
            final(self)@.wf(),
            old(self)@.phase != GameState::Running ==> final(self)@ == old(self)@,
            old(self)@.phase == GameState::Running ==> exists|f: Option<Block>, b: bool|
                #[trigger] spawn_admissible(old(self)@, f, b) && final(self)@ == after_update(
                    old(self)@,
                    f,
                    b,
                    delta_ms as int,
                ),
            old(self)@.phase == GameState::Running && old(self)@.food is Some ==> final(self)@
                == after_update(old(self)@, old(self)@.food, old(self)@.bonus, delta_ms as int),
    {
        if self.state != GameState::Running {
            return;
        }
        self.waiting_ms = self.waiting_ms + delta_ms;
        if self.food.is_none() {
            self.add_food();
        }
        let ghost gf = self@.food;
        let ghost gb = self@.bonus;
        proof {
            assert(spawn_admissible(old(self)@, gf, gb));
        }
        let lv: u64 = if self.level >= 10 {
            10
        } else {
            self.level
        };
        let speed: u64 = BASE_SPEED_MS - SPEED_STEP_MS * lv;
        proof {
            assert(speed as int == speed_ms(old(self)@.level));
        }
        if self.waiting_ms > speed {
            self.update_snake(None);
        }
        proof {
            assert(self@ == after_update(old(self)@, gf, gb, delta_ms as int));
        }
    }
}

/// A higher level never slows the game down, and the tick interval is
/// floored at [`MIN_SPEED_MS`]: from level 1 on it lies between the floor
/// and the base interval shortened by one step.
pub proof fn lemma_speed_curve(level_low: int, level_high: int)
    requires
        1 <= level_low <= level_high,
    ensures
        speed_ms(level_high) <= speed_ms(level_low),
        MIN_SPEED_MS as int <= speed_ms(level_low) <= (BASE_SPEED_MS - SPEED_STEP_MS) as int,
{
}

/// The key that asks for heading `d`.
pub open spec fn key_for(d: Direction) -> GameKey {
    match d {
        Direction::Up => GameKey::Up,
        Direction::Down => GameKey::Down,
        Direction::Left => GameKey::Left,
        Direction::Right => GameKey::Right,
    }
}

/// A non-reversal directional key in the running phase, when the move it
/// asks for is not lethal, moves the head exactly one cell in that heading,
/// makes it current, and resets the wait accumulator to zero. (A lethal
/// heading instead ends the game with the head unmoved, by
/// [`lemma_self_collision_ends_game`] and [`lemma_border_collision_ends_game`].)
pub proof fn lemma_directional_input_moves_head(v: GameView, d: Direction)
    requires
        v.wf(),
        v.phase == GameState::Running,
        d != opposite_dir(v.snake.dir),
        !move_is_lethal(v, Some(d)),
    ensures
        after_key(v, key_for(d)).snake.body[0] == step_cell(v.snake.body[0], d),
        after_key(v, key_for(d)).snake.dir == d,
        after_key(v, key_for(d)).waiting_ms == 0,
{
}

/// A directional key equal to the opposite of the current heading is a
/// complete no-op: the whole state, position and accumulator included, is
/// unchanged.
pub proof fn lemma_reversal_input_is_noop(v: GameView, d: Direction)
    requires
        v.phase == GameState::Running,
        d == opposite_dir(v.snake.dir),
    ensures
        after_key(v, key_for(d)) == v,
{
}

/// When the candidate head cell hits a non-head body cell, the tick ends the
/// game and leaves snake, food, score and level untouched.
pub proof fn lemma_self_collision_ends_game(v: GameView, d: Option<Direction>)
    requires
        v.wf(),
        v.snake.body.len() >= 4,
        hits_tail(v.snake.body, next_head_of(v, d).x, next_head_of(v, d).y),
    ensures
        game_step(v, d).phase == GameState::GameOver,
        game_step(v, d).snake == v.snake,
        game_step(v, d).food == v.food,
        game_step(v, d).score == v.score,
        game_step(v, d).level == v.level,
{
}

/// A candidate head cell on any of the four border walls always ends the
/// game, with snake, food, score and level untouched.
pub proof fn lemma_border_collision_ends_game(v: GameView, d: Option<Direction>)
    requires
        v.wf(),
        ({
            let nh = next_head_of(v, d);
            nh.x == 0 || nh.y == 0 || nh.x == v.width - 1 || nh.y == v.height - 1
        }),
    ensures
        game_step(v, d).phase == GameState::GameOver,
        game_step(v, d).snake == v.snake,
        game_step(v, d).food == v.food,
        game_step(v, d).score == v.score,
        game_step(v, d).level == v.level,
{
}

/// Consuming food grows the snake by exactly one cell and the score by
/// exactly one point — three for bonus food — and removes the food.
pub proof fn lemma_eating_grows_and_scores(v: GameView, d: Option<Direction>)
    requires
        v.wf(),
        !move_is_lethal(v, d),
        v.food == Some(next_head_of(v, d)),
    ensures
        game_step(v, d).snake.body.len() == v.snake.body.len() + 1,
        game_step(v, d).score == v.score + points_of(v.bonus),
        !v.bonus ==> game_step(v, d).score == v.score + 1,
        v.bonus ==> game_step(v, d).score == v.score + 3,
        game_step(v, d).food is None,
{
}

/// An eating tick raises the level by exactly one when the new score is a
/// positive multiple of [`POINTS_PER_LEVEL`], and never by more than one per
/// tick, even when the score jumps by three.
pub proof fn lemma_level_up_once_per_tick(v: GameView, d: Option<Direction>)
    requires
        v.wf(),
        !move_is_lethal(v, d),
        v.food == Some(next_head_of(v, d)),
    ensures
        game_step(v, d).score > 0,
        game_step(v, d).level == (if game_step(v, d).score % (POINTS_PER_LEVEL as int) == 0 {
            v.level + 1
        } else {
            v.level
        }),
        game_step(v, d).level <= v.level + 1,
{
}

/// A tick that eats nothing — lethal or not — never changes the level.
pub proof fn lemma_no_eating_no_level_change(v: GameView, d: Option<Direction>)
    requires
        v.wf(),
        v.food != Some(next_head_of(v, d)),
    ensures
        game_step(v, d).level == v.level,
        game_step(v, d).score == v.score,
{
}

/// In every well-formed state — and every reachable state is well formed —
/// the food cell is disjoint from the whole snake body.
pub proof fn lemma_food_never_on_snake(v: GameView, f: Block)
    requires
        v.wf(),
        v.food == Some(f),
    ensures
        !v.snake.body.contains(f),
{
}

/// The pause toggle changes at most the phase: a running game pauses, a
/// paused game runs, and a finished game stays over; everything else is
/// untouched in every state.
pub proof fn lemma_pause_toggle_changes_only_phase(v: GameView)
    ensures
        after_key(v, GameKey::Pause).snake == v.snake,
        after_key(v, GameKey::Pause).food == v.food,
        after_key(v, GameKey::Pause).bonus == v.bonus,
        after_key(v, GameKey::Pause).score == v.score,
        after_key(v, GameKey::Pause).level == v.level,
        after_key(v, GameKey::Pause).waiting_ms == v.waiting_ms,
        after_key(v, GameKey::Pause).phase == (match v.phase {
            GameState::Running => GameState::Paused,
            GameState::Paused => GameState::Running,
            GameState::GameOver => GameState::GameOver,
        }),
{
}

/// Restart from any state — game over, paused, or mid-run — rebuilds the
/// exact initial configuration: the three-cell snake at `(2, 2)` heading
/// right, food present at `(6, 4)`, score 0, level 1, accumulator 0,
/// running.
pub proof fn lemma_restart_restores_initial(v: GameView)
    ensures
        after_key(v, GameKey::Restart) == initial_view(v.width, v.height),
        initial_view(v.width, v.height).snake.body =~= seq![
            Block { x: 4, y: 2 },
            Block { x: 3, y: 2 },
            Block { x: 2, y: 2 },
        ],
        initial_view(v.width, v.height).snake.dir == Direction::Right,
        initial_view(v.width, v.height).food == Some(Block { x: 6, y: 4 }),
        initial_view(v.width, v.height).score == 0,
        initial_view(v.width, v.height).level == 1,
        initial_view(v.width, v.height).waiting_ms == 0,
        initial_view(v.width, v.height).phase == GameState::Running,
{
}

} // verus!
