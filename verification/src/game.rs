//! The round controller: the fixed-interval tick timer, the game-over
//! signal, and the reset that restores the starting configuration.

use vstd::prelude::*;

use crate::food::EatEvent;
use crate::food::Food;
use crate::food::ate;
use crate::food::eat;
use crate::food::spawn_sys;
use crate::snake::Direction;
use crate::snake::LastTailPosition;
use crate::snake::SnakeBits;
use crate::snake::SnakeHead;
use crate::snake::advance_game_over;
use crate::snake::grow;
use crate::snake::input;
use crate::snake::input_spec;
use crate::snake::move_pos;
use crate::snake::movement;
use crate::snake::setup;
use crate::snake::starting_body_position;
use crate::snake::starting_head_position;
use crate::space::ARENA_HEIGHT;
use crate::space::ARENA_WIDTH;
use crate::space::Position;
use crate::space::in_bounds;
use crate::space::lemma_free_cell_exists;

verus! {

/// A fatal step happened this tick: the head left the arena or landed on
/// its own body. A level signal: consumers act on presence, not count.
#[derive(Clone, Copy, Debug)]
pub struct GameOverEvent;

/// The tick interval: the accumulated time that makes the timer fire.
pub const TICK_INTERVAL_MS: u64 = 150;

/// The tick timer: accumulates elapsed milliseconds and reports, once
/// per completed interval, that a movement step is due. Decouples the
/// logical step rate from the frame rate.
#[derive(Clone, Copy, Debug)]
pub struct MoveTimer {
    pub elapsed_ms: u64,
    pub just_finished: bool,
}

impl Default for MoveTimer {
    /// A fresh timer: nothing accumulated, nothing fired.
    fn default() -> (r: MoveTimer)
        ensures
            r.elapsed_ms == 0,
            !r.just_finished,
    {
        MoveTimer { elapsed_ms: 0, just_finished: false }
    }
}

/// Feed one frame's elapsed time into the timer. The timer fires when
/// the accumulated time reaches the interval; what it accumulates beyond
/// whole intervals is kept for the next tick.
pub fn move_tick(timer: &mut MoveTimer, delta_ms: u64)
    requires
        old(timer).elapsed_ms < TICK_INTERVAL_MS,
        delta_ms <= u64::MAX - TICK_INTERVAL_MS,
    ensures
        final(timer).just_finished == (old(timer).elapsed_ms + delta_ms >= TICK_INTERVAL_MS),
        final(timer).elapsed_ms == (old(timer).elapsed_ms + delta_ms) % (TICK_INTERVAL_MS as int),
        final(timer).elapsed_ms < TICK_INTERVAL_MS,
{
    let total = timer.elapsed_ms + delta_ms;
    timer.just_finished = total >= TICK_INTERVAL_MS;
    timer.elapsed_ms = total % TICK_INTERVAL_MS;
}

/// Whether the timer fired on its most recent update.
pub fn move_finished(timer: &MoveTimer) -> (b: bool)
    ensures
        b == timer.just_finished,
{
    timer.just_finished
}

/// Restore the starting configuration: the snake back to its two starting
/// segments facing up, and the food on some cell off those two.
fn reset_round(head: &mut SnakeHead, bits: &mut SnakeBits, food: &mut Food)
    ensures
        final(head).dir == Direction::Up,
        !final(head).turned,
        final(bits).0@ =~= seq![starting_head_position(), starting_body_position()],
        final(food).0 is Some,
        in_bounds(final(food).0->Some_0),
        final(food).0->Some_0 != starting_head_position(),
        final(food).0->Some_0 != starting_body_position(),
{
    setup(head, bits);
    proof {
        let w = Position { x: 0, y: 0 };
        assert(in_bounds(w) && !bits.0@.contains(w));
    }
    spawn_sys(food, &bits.0);
    proof {
        let f = food.0->Some_0;
        assert(bits.0@[0] == starting_head_position());
        assert(bits.0@[1] == starting_body_position());
        if f == starting_head_position() {
            assert(bits.0@.contains(f));
        }
        if f == starting_body_position() {
            assert(bits.0@.contains(f));
        }
    }
}

/// React to this tick's game-over signal: with at least one event present,
/// despawn everything and restart the round with the starting snake and a
/// fresh food item off the two starting cells; with none, change nothing.
pub fn game_over(
    game_over_events: &Vec<GameOverEvent>,
    head: &mut SnakeHead,
    bits: &mut SnakeBits,
    food: &mut Food,
)
    ensures
        game_over_events@.len() == 0 ==> *final(head) == *old(head)
            && final(bits).0@ == old(bits).0@
            && *final(food) == *old(food),
        game_over_events@.len() > 0 ==> final(head).dir == Direction::Up
            && !final(head).turned
            && final(bits).0@ =~= seq![starting_head_position(), starting_body_position()]
            && final(food).0 is Some
            && in_bounds(final(food).0->Some_0)
            && final(food).0->Some_0 != starting_head_position()
            && final(food).0->Some_0 != starting_body_position(),
{
    if game_over_events.len() > 0 {
        reset_round(head, bits, food);
    }
}

/// The segment list after one movement step in direction `d`: the head one
/// cell onward, every other segment in its predecessor's old cell.
pub open spec fn shifted(positions: Seq<Position>, d: Direction) -> Seq<Position> {
    Seq::new(
        positions.len(),
        |i: int|
            if i == 0 {
                move_pos(positions[0], d)
            } else {
                positions[i - 1]
            },
    )
}

/// The whole round in one place: the snake, the food, the tick timer
/// and the two event queues, stepped frame by frame through `tick`.
#[derive(Debug)]
pub struct SnakeGame {
    pub head: SnakeHead,
    pub bits: SnakeBits,
    pub last_tail: LastTailPosition,
    pub food: Food,
    pub timer: MoveTimer,
    pub eat_events: Vec<EatEvent>,
    pub game_over_events: Vec<GameOverEvent>,
}

impl SnakeGame {
    /// The states a round passes through: a live snake whose segments all
    /// lie in the arena, one food item on the board, and a timer that
    /// has not run past its interval.
    pub open spec fn wf(self) -> bool {
        &&& self.bits.0@.len() >= 1
        &&& forall|i: int| 0 <= i < self.bits.0@.len() ==> in_bounds(#[trigger] self.bits.0@[i])
        &&& self.food.0 is Some
        &&& in_bounds(self.food.0->Some_0)
        &&& self.timer.elapsed_ms < TICK_INTERVAL_MS
    }

    /// A fresh round: the starting snake, a food item off the two starting
    /// cells, the timer at zero and both event queues empty.
    pub fn new() -> (g: SnakeGame)
        ensures
            g.wf(),
            g.head.dir == Direction::Up,
            !g.head.turned,
            g.bits.0@ =~= seq![starting_head_position(), starting_body_position()],
            g.food.0 is Some,
            g.food.0->Some_0 != starting_head_position(),
            g.food.0->Some_0 != starting_body_position(),
            g.last_tail.0 is None,
            g.timer.elapsed_ms == 0,
            !g.timer.just_finished,
            g.eat_events@.len() == 0,
            g.game_over_events@.len() == 0,
    {
        let mut head = SnakeHead { dir: Direction::Up, turned: false };
        let mut bits = SnakeBits::default();
        let mut food = Food(None);
        reset_round(&mut head, &mut bits, &mut food);
        SnakeGame {
            head,
            bits,
            last_tail: LastTailPosition::default(),
            food,
            timer: MoveTimer::default(),
            eat_events: Vec::new(),
            game_over_events: Vec::new(),
        }
    }

    /// One frame: capture input, feed the timer, and when the timer
    /// fires run the tick's stages in their fixed order — movement, eat
    /// check, growth and food respawn on an eat, reset on a game over. On
    /// a frame whose timer stays short of the interval only the head's
    /// steering can change; on a tick the queues hold exactly this tick's
    /// events when it returns. The snake must leave the board some room:
    /// were it about to cover the whole arena, no cell would be left for
    /// the food.
    pub fn tick(&mut self, delta_ms: u64, right: bool, down: bool, left: bool, up: bool)
        requires
            old(self).wf(),
            old(self).bits.0@.len() + 1 < ARENA_WIDTH * ARENA_HEIGHT,
            delta_ms <= u64::MAX - TICK_INTERVAL_MS,
        ensures
            final(self).wf(),
            final(self).timer.just_finished == (old(self).timer.elapsed_ms + delta_ms
                >= TICK_INTERVAL_MS),
            final(self).timer.elapsed_ms == (old(self).timer.elapsed_ms + delta_ms) % (
            TICK_INTERVAL_MS as int),
            old(self).timer.elapsed_ms + delta_ms < TICK_INTERVAL_MS ==> final(self).head
                == input_spec(old(self).head, right, down, left, up)
                && final(self).bits.0@ == old(self).bits.0@
                && final(self).food == old(self).food
                && final(self).last_tail == old(self).last_tail
                && final(self).eat_events@ == old(self).eat_events@
                && final(self).game_over_events@ == old(self).game_over_events@,
            old(self).timer.elapsed_ms + delta_ms >= TICK_INTERVAL_MS ==> ({
                let h1 = input_spec(old(self).head, right, down, left, up);
                let positions = old(self).bits.0@;
                let nh = move_pos(positions[0], h1.dir);
                let go = advance_game_over(positions, h1.dir);
                let eaten = old(self).food.0 == Some(nh);
                &&& final(self).last_tail.0 == Some(positions[positions.len() - 1])
                &&& (final(self).game_over_events@.len() > 0) == go
                &&& final(self).eat_events@.len() == (if eaten { 1int } else { 0int })
                &&& !go ==> final(self).head.dir == h1.dir && !final(self).head.turned
                &&& (!go && !eaten) ==> final(self).bits.0@ =~= shifted(positions, h1.dir)
                    && final(self).food == old(self).food
                &&& (!go && eaten) ==> final(self).bits.0@ =~= shifted(positions, h1.dir).push(
                    positions[positions.len() - 1],
                ) && final(self).food.0 is Some && !final(self).bits.0@.contains(
                    final(self).food.0->Some_0,
                )
                &&& go ==> final(self).head.dir == Direction::Up && !final(self).head.turned
                    && final(self).bits.0@ =~= seq![
                        starting_head_position(),
                        starting_body_position(),
                    ] && final(self).food.0 is Some && final(self).food.0->Some_0
                    != starting_head_position() && final(self).food.0->Some_0
                    != starting_body_position()
            }),
    {
        input(&mut self.head, right, down, left, up);
        move_tick(&mut self.timer, delta_ms);
        if move_finished(&self.timer) {
            self.eat_events.clear();
            self.game_over_events.clear();

            movement(&mut self.head, &mut self.bits, &mut self.last_tail, &mut self.game_over_events);

            let head_pos = self.bits.0[0];
            eat(&mut self.food, head_pos, &mut self.eat_events);

            if ate(&self.eat_events) {
                grow(&mut self.bits, &self.last_tail);
                proof {
                    lemma_free_cell_exists(self.bits.0@);
                }
                spawn_sys(&mut self.food, &self.bits.0);
            }

            game_over(&self.game_over_events, &mut self.head, &mut self.bits, &mut self.food);
        }
    }
}

} // verus!
