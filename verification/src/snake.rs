//! The snake itself: head direction with its per-tick turn lock, the
//! ordered segment list, the chain-follow movement step, and growth.

use vstd::prelude::*;

use crate::game::GameOverEvent;
use crate::space::ARENA_HEIGHT;
use crate::space::ARENA_WIDTH;
use crate::space::Position;
use crate::space::in_bounds;

verus! {

/// One of the four directions the head can face.
#[derive(Clone, Copy, PartialEq, Eq, Structural, Debug)]
pub enum Direction {
    Up,
    Down,
    Left,
    Right,
}

/// The direction opposite to `d`.
pub open spec fn opposite_spec(d: Direction) -> Direction {
    match d {
        Direction::Down => Direction::Up,
        Direction::Right => Direction::Left,
        Direction::Left => Direction::Right,
        Direction::Up => Direction::Down,
    }
}

impl Direction {
    /// The 180-degree reversal of this direction.
    pub fn opposite(self) -> (r: Direction)
        ensures
            r == opposite_spec(self),
    {
        match self {
            Direction::Down => Direction::Up,
            Direction::Right => Direction::Left,
            Direction::Left => Direction::Right,
            Direction::Up => Direction::Down,
        }
    }
}

/// The head's steering state: the direction of travel and the turn lock,
/// set once a turn has been accepted this tick and cleared when the tick's
/// movement step runs.
#[derive(Clone, Copy, Debug)]
pub struct SnakeHead {
    pub dir: Direction,
    pub turned: bool,
}

/// What a turn attempt does to an unlocked head: a reversal is dropped,
/// any other direction is taken and sets the turn lock. The lock itself
/// is not consulted here; `request_turn_spec` layers it on top.
pub open spec fn try_dir_spec(h: SnakeHead, dir: Direction) -> SnakeHead {
    if opposite_spec(dir) == h.dir {
        h
    } else {
        SnakeHead { dir, turned: true }
    }
}

/// A full turn request: ignored while the turn lock is set, otherwise a
/// turn attempt on the unlocked head.
pub open spec fn request_turn_spec(h: SnakeHead, dir: Direction) -> SnakeHead {
    if h.turned {
        h
    } else {
        try_dir_spec(h, dir)
    }
}

impl SnakeHead {
    /// One turn request: take `dir` unless it reverses the current
    /// direction or a turn has already been accepted this tick; an
    /// accepted turn sets the turn lock. A reversal never changes the
    /// direction of travel, and a locked head never changes at all.
    pub fn try_dir(&mut self, dir: Direction)
        ensures
            *final(self) == request_turn_spec(*old(self), dir),
            dir == opposite_spec(old(self).dir) ==> final(self).dir == old(self).dir,
            old(self).turned ==> *final(self) == *old(self),
    {
        if self.turned {
            return;
        }
        if dir.opposite() == self.dir {
            return;
        }
        self.dir = dir;
        self.turned = true;
    }
}

/// Once a turn has been accepted, every further request this tick leaves
/// the direction as the first accepted turn set it.
pub proof fn lemma_one_turn_per_tick(h: SnakeHead, d1: Direction, d2: Direction)
    requires
        !h.turned,
        d1 != opposite_spec(h.dir),
    ensures
        request_turn_spec(h, d1).dir == d1,
        request_turn_spec(request_turn_spec(h, d1), d2) == request_turn_spec(h, d1),
{
}

/// The ordered segment list: index 0 is the head, each later index the
/// next segment toward the tail.
#[derive(Debug)]
pub struct SnakeBits(pub Vec<Position>);

impl Default for SnakeBits {
    /// An empty segment list.
    fn default() -> (r: SnakeBits)
        ensures
            r.0@ == Seq::<Position>::empty(),
    {
        SnakeBits(Vec::new())
    }
}

/// The cell the tail vacated in the most recent movement step; consumed by
/// growth to place the new tail segment.
#[derive(Clone, Copy, Debug)]
pub struct LastTailPosition(pub Option<Position>);

impl Default for LastTailPosition {
    /// No movement step has run yet.
    fn default() -> (r: LastTailPosition)
        ensures
            r.0 is None,
    {
        LastTailPosition(None)
    }
}

/// The cell where the head starts a round.
pub open spec fn starting_head_position() -> Position {
    Position { x: 5, y: 2 }
}

/// The cell where the single starting body segment sits: one cell behind
/// the head, which starts out moving up.
pub open spec fn starting_body_position() -> Position {
    Position { x: 5, y: 1 }
}

/// Reset the snake to its starting configuration: head at the starting
/// cell facing up with the turn lock clear, and exactly one body segment
/// one cell behind it.
pub fn setup(head: &mut SnakeHead, bits: &mut SnakeBits)
    ensures
        final(head).dir == Direction::Up,
        !final(head).turned,
        final(bits).0@ =~= seq![starting_head_position(), starting_body_position()],
{
    head.dir = Direction::Up;
    head.turned = false;
    bits.0.clear();
    let start = Position { x: 5, y: 2 };
    bits.0.push(start);
    spawn(bits, start.sub(Position { x: 0, y: 1 }));
}

/// The cell one step from `p` in direction `d`.
pub open spec fn move_pos(p: Position, d: Direction) -> Position {
    match d {
        Direction::Right => Position { x: (p.x + 1) as i32, y: p.y },
        Direction::Down => Position { x: p.x, y: (p.y - 1) as i32 },
        Direction::Left => Position { x: (p.x - 1) as i32, y: p.y },
        Direction::Up => Position { x: p.x, y: (p.y + 1) as i32 },
    }
}

/// Whether a movement step from `positions` (head first) in direction `d`
/// ends the round: the head's new cell leaves the arena, or coincides with
/// a body segment's post-move cell (which is its predecessor's old cell).
pub open spec fn advance_game_over(positions: Seq<Position>, d: Direction) -> bool {
    let nh = move_pos(positions[0], d);
    !in_bounds(nh) || exists|i: int| 1 <= i < positions.len() && #[trigger] positions[i - 1] == nh
}

/// One movement step. The turn lock opens for the new tick, the tail's
/// cell is cached for growth, the head advances one cell in its direction,
/// and every body segment moves into the cell its predecessor vacated.
/// Game-over events fire exactly when the step is fatal: one event for a
/// wall exit and one per body segment the head lands on.
pub fn movement(
    head: &mut SnakeHead,
    bits: &mut SnakeBits,
    last_tail: &mut LastTailPosition,
    game_over_events: &mut Vec<GameOverEvent>,
)
    requires
        old(bits).0@.len() > 0,
        i32::MIN < old(bits).0@[0].x < i32::MAX,
        i32::MIN < old(bits).0@[0].y < i32::MAX,
    ensures
        final(head).dir == old(head).dir,
        !final(head).turned,
        final(bits).0@.len() == old(bits).0@.len(),
        final(bits).0@[0] == move_pos(old(bits).0@[0], old(head).dir),
        forall|i: int| 1 <= i < old(bits).0@.len() ==> final(bits).0@[i] == old(bits).0@[i - 1],
        final(last_tail).0 == Some(old(bits).0@[old(bits).0@.len() - 1]),
        final(game_over_events)@.len() >= old(game_over_events)@.len(),
        (final(game_over_events)@.len() > old(game_over_events)@.len()) == advance_game_over(
            old(bits).0@,
            old(head).dir,
        ),
{
    head.turned = false;

    let ghost old_positions = bits.0@;
    let len = bits.0.len();

    *last_tail = LastTailPosition(Some(bits.0[len - 1]));

    let old_head_pos = bits.0[0];
    let new_head = match head.dir {
        Direction::Right => Position { x: old_head_pos.x + 1, y: old_head_pos.y },
        Direction::Down => Position { x: old_head_pos.x, y: old_head_pos.y - 1 },
        Direction::Left => Position { x: old_head_pos.x - 1, y: old_head_pos.y },
        Direction::Up => Position { x: old_head_pos.x, y: old_head_pos.y + 1 },
    };

    let mut i: usize = len - 1;
    while i >= 1
        invariant
            len == old_positions.len(),
            bits.0@.len() == len,
            i < len,
            forall|j: int| i < j < len ==> bits.0@[j] == old_positions[j - 1],
            forall|j: int| 0 <= j <= i ==> bits.0@[j] == old_positions[j],
        decreases i,
    {
        let v = bits.0[i - 1];
        bits.0[i] = v;
        i = i - 1;
    }

    bits.0[0] = new_head;

    let ghost events_before = game_over_events@.len();

    if new_head.x < 0 || new_head.x > ARENA_WIDTH as i32 - 1 || new_head.y < 0 || new_head.y
        > ARENA_HEIGHT as i32 - 1 {
        game_over_events.push(GameOverEvent);
    }

    let mut k: usize = 1;
    while k < len
        invariant
            len == old_positions.len(),
            bits.0@.len() == len,
            1 <= k <= len,
            new_head == move_pos(old_positions[0], old(head).dir),
            forall|j: int| 1 <= j < len ==> bits.0@[j] == old_positions[j - 1],
            game_over_events@.len() >= events_before,
            (game_over_events@.len() > events_before) == (!in_bounds(new_head) || exists|j: int|
                1 <= j < k && #[trigger] old_positions[j - 1] == new_head),
        decreases len - k,
    {
        if bits.0[k] == new_head {
            game_over_events.push(GameOverEvent);
            assert(old_positions[k - 1] == new_head);
        }
        k = k + 1;
    }
}

/// Bring one segment into being at `position`, at the tail end of the
/// segment list.
pub fn spawn(bits: &mut SnakeBits, position: Position)
    ensures
        final(bits).0@ =~= old(bits).0@.push(position),
{
    bits.0.push(position);
}

/// Append one segment at the cell the tail vacated this tick. Called at
/// most once per tick, after the tick's movement step has cached that cell.
pub fn grow(bits: &mut SnakeBits, last_tail: &LastTailPosition)
    requires
        last_tail.0 is Some,
    ensures
        final(bits).0@ =~= old(bits).0@.push(last_tail.0->Some_0),
{
    let p = match last_tail.0 {
        Some(p) => p,
        None => Position { x: 0, y: 0 },
    };
    spawn(bits, p);
}

/// Which turn the pressed keys ask for, with the key for right taking
/// precedence over down, down over left, and left over up.
pub open spec fn requested_dir(right: bool, down: bool, left: bool, up: bool) -> Option<
    Direction,
> {
    if right {
        Some(Direction::Right)
    } else if down {
        Some(Direction::Down)
    } else if left {
        Some(Direction::Left)
    } else if up {
        Some(Direction::Up)
    } else {
        None
    }
}

/// What one frame of input does to the head: nothing without a pressed
/// key, otherwise a full turn request for the key's direction.
pub open spec fn input_spec(h: SnakeHead, right: bool, down: bool, left: bool, up: bool) -> SnakeHead {
    match requested_dir(right, down, left, up) {
        None => h,
        Some(d) => request_turn_spec(h, d),
    }
}

/// Apply one frame of directional input to the head. Each flag says that
/// the key for that direction is pressed. A request is accepted only if it
/// is no reversal and no turn has been accepted yet this tick; an accepted
/// request sets the direction and the turn lock, all others are dropped.
pub fn input(head: &mut SnakeHead, right: bool, down: bool, left: bool, up: bool)
    ensures
        *final(head) == input_spec(*old(head), right, down, left, up),
        requested_dir(right, down, left, up) == Some(opposite_spec(old(head).dir))
            ==> final(head).dir == old(head).dir,
{
    if right {
        head.try_dir(Direction::Right);
    } else if down {
        head.try_dir(Direction::Down);
    } else if left {
        head.try_dir(Direction::Left);
    } else if up {
        head.try_dir(Direction::Up);
    }
}

} // verus!
