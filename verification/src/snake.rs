//! The snake model: an ordered body of grid cells, a current heading, and
//! the remembered tail cell used to grow by one after eating.

use vstd::prelude::*;

verus! {

/// One grid cell. The origin (0, 0) is the top-left corner; `y` grows
/// downward.
#[derive(Copy, Clone, PartialEq, Eq, Structural, Debug)]
pub struct Block {
    pub x: i32,
    pub y: i32,
}

/// The heading the snake travels in.
#[derive(Copy, Clone, PartialEq, Eq, Structural, Debug)]
pub enum Direction {
    Up,
    Down,
    Left,
    Right,
}

/// The heading opposite to `d`. Moving to it would reverse the snake onto
/// itself, so the engine rejects it as a player input.
pub open spec fn opposite_dir(d: Direction) -> Direction {
    match d {
        Direction::Up => Direction::Down,
        Direction::Down => Direction::Up,
        Direction::Left => Direction::Right,
        Direction::Right => Direction::Left,
    }
}

impl Direction {
    pub fn opposite(&self) -> (r: Direction)
        ensures
            r == opposite_dir(*self),
    {
        match *self {
            Direction::Up => Direction::Down,
            Direction::Down => Direction::Up,
            Direction::Left => Direction::Right,
            Direction::Right => Direction::Left,
        }
    }
}

/// `opposite` is a total involution: applying it twice gives the heading
/// back, for every heading.
pub proof fn lemma_opposite_involution(d: Direction)
    ensures
        opposite_dir(opposite_dir(d)) == d,
        opposite_dir(d) != d,
{
}

/// The cell one step from `c` in direction `d`: up decreases `y`, down
/// increases `y`, left decreases `x`, right increases `x`.
pub open spec fn step_cell(c: Block, d: Direction) -> Block {
    match d {
        Direction::Up => Block { x: c.x, y: (c.y - 1) as i32 },
        Direction::Down => Block { x: c.x, y: (c.y + 1) as i32 },
        Direction::Left => Block { x: (c.x - 1) as i32, y: c.y },
        Direction::Right => Block { x: (c.x + 1) as i32, y: c.y },
    }
}

/// Stepping from `c` in direction `d` stays within `i32`.
pub open spec fn can_step(c: Block, d: Direction) -> bool {
    match d {
        Direction::Up => c.y > i32::MIN,
        Direction::Down => c.y < i32::MAX,
        Direction::Left => c.x > i32::MIN,
        Direction::Right => c.x < i32::MAX,
    }
}

/// The heading a move uses: the override if one is given, else the current
/// heading.
pub open spec fn eff_dir(cur: Direction, d: Option<Direction>) -> Direction {
    match d {
        Some(nd) => nd,
        None => cur,
    }
}

/// Does `(x, y)` hit a body cell other than the head (index 0)?
pub open spec fn hits_tail(body: Seq<Block>, x: i32, y: i32) -> bool {
    exists|i: int| 1 <= i < body.len() && #[trigger] body[i].x == x && body[i].y == y
}

/// The mathematical value of a [`Snake`]: its body cells head-first, its
/// heading, and the remembered tail cell, if any.
pub struct SnakeView {
    pub body: Seq<Block>,
    pub dir: Direction,
    pub tail_mem: Option<Block>,
}

impl SnakeView {
    /// The body is never empty.
    pub open spec fn wf(self) -> bool {
        self.body.len() >= 1
    }

    /// The snake after one forward move: the stepped head cell is prepended,
    /// the last cell is removed and remembered, and an override heading, if
    /// given, becomes current.
    pub open spec fn after_move(self, d: Option<Direction>) -> SnakeView {
        let nd = eff_dir(self.dir, d);
        SnakeView {
            body: seq![step_cell(self.body[0], nd)] + self.body.drop_last(),
            dir: nd,
            tail_mem: Some(self.body.last()),
        }
    }

    /// The snake after regrowing: the remembered tail cell, if any, is
    /// appended again.
    pub open spec fn after_restore(self) -> SnakeView {
        match self.tail_mem {
            Some(t) => SnakeView { body: self.body.push(t), dir: self.dir, tail_mem: self.tail_mem },
            None => self,
        }
    }
}

/// The snake: body cells head-first, the current heading, and the last
/// removed tail cell, remembered so one eating event can restore it.
pub struct Snake {
    direction: Direction,
    body: Vec<Block>,
    tail: Option<Block>,
}

impl View for Snake {
    type V = SnakeView;

    closed spec fn view(&self) -> SnakeView {
        SnakeView { body: self.body@, dir: self.direction, tail_mem: self.tail }
    }
}

/// The three-cell starting snake: head at `(x + 2, y)`, lying to the left,
/// heading right, nothing remembered.
pub open spec fn initial_snake(x: i32, y: i32) -> SnakeView {
    SnakeView {
        body: seq![
            Block { x: (x + 2) as i32, y },
            Block { x: (x + 1) as i32, y },
            Block { x, y },
        ],
        dir: Direction::Right,
        tail_mem: None,
    }
}

impl Snake {
    /// A new three-cell snake lying horizontally with its head at
    /// `(x + 2, y)`, heading right.
    pub fn new(x: i32, y: i32) -> (r: Snake)
        requires
            x + 2 <= i32::MAX,
        ensures
            r@ == initial_snake(x, y),
            r@.wf(),
    {
        let mut body: Vec<Block> = Vec::new();
        body.push(Block { x: x + 2, y });
        body.push(Block { x: x + 1, y });
        body.push(Block { x, y });
        let r = Snake { direction: Direction::Right, body, tail: None };
        proof {
            assert(r@.body =~= initial_snake(x, y).body);
        }
        r
    }

    /// The head cell, `body[0]`.
    pub fn head_position(&self) -> (r: (i32, i32))
        requires
            self@.wf(),
        ensures
            r.0 == self@.body[0].x,
            r.1 == self@.body[0].y,
    {
        let head = &self.body[0];
        (head.x, head.y)
    }

    /// The current heading.
    pub fn head_direction(&self) -> (r: Direction)
        ensures
            r == self@.dir,
    {
        self.direction
    }

    /// Where the head would move under an optional heading override; pure
    /// lookahead, nothing changes.
    pub fn next_head(&self, dir: Option<Direction>) -> (r: (i32, i32))
        requires
            self@.wf(),
            can_step(self@.body[0], eff_dir(self@.dir, dir)),
        ensures
            r.0 == step_cell(self@.body[0], eff_dir(self@.dir, dir)).x,
            r.1 == step_cell(self@.body[0], eff_dir(self@.dir, dir)).y,
    {
        let (x, y) = self.head_position();
        let d = match dir {
            Some(d) => d,
            None => self.direction,
        };
        match d {
            Direction::Up => (x, y - 1),
            Direction::Down => (x, y + 1),
            Direction::Left => (x - 1, y),
            Direction::Right => (x + 1, y),
        }
    }

    /// Commit one forward move: adopt the override heading if given, prepend
    /// the stepped head cell, and remove the last cell, remembering it for a
    /// possible regrowth. The length stays constant.
    pub fn move_forward(&mut self, dir: Option<Direction>)
        requires
            old(self)@.wf(),
            can_step(old(self)@.body[0], eff_dir(old(self)@.dir, dir)),
        ensures
            final(self)@ == old(self)@.after_move(dir),
            final(self)@.wf(),
            final(self)@.body.len() == old(self)@.body.len(),
    {
        if let Some(new_dir) = dir {
            self.direction = new_dir;
        }
        let (x, y) = self.head_position();
        let new_head = match self.direction {
            Direction::Up => Block { x, y: y - 1 },
            Direction::Down => Block { x, y: y + 1 },
            Direction::Left => Block { x: x - 1, y },
            Direction::Right => Block { x: x + 1, y },
        };
        self.body.insert(0, new_head);
        self.tail = self.body.pop();
        proof {
            assert(self@.body =~= old(self)@.after_move(dir).body);
        }
    }

    /// Re-append the remembered tail cell, if any, growing the snake by one.
    /// The engine calls this at most once per eating event, right after the
    /// move that removed the cell.
    pub fn restore_tail(&mut self)
        ensures
            final(self)@ == old(self)@.after_restore(),
    {
        if let Some(tail_block) = self.tail {
            self.body.push(tail_block);
        }
    }

    /// Does `(x, y)` coincide with a body cell other than the head? Used for
    /// self-collision lookahead and for food placement.
    pub fn overlap_tail(&self, x: i32, y: i32) -> (r: bool)
        ensures
            r == hits_tail(self@.body, x, y),
    {
        let mut i: usize = 1;
        while i < self.body.len()
            invariant
                1 <= i,
                i <= self.body.len() || self.body.len() == 0,
                forall|j: int| 1 <= j < i ==> !(#[trigger] self@.body[j].x == x && self@.body[j].y == y),
            decreases self.body.len() - i,
        {
            let b = &self.body[i];
            if b.x == x && b.y == y {
                return true;
            }
            i += 1;
        }
        false
    }

    /// The body cells, head first, for read-only drawing.
    pub fn body(&self) -> (r: &Vec<Block>)
        ensures
            r@ == self@.body,
    {
        &self.body
    }
}

} // verus!
