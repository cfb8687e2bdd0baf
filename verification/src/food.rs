//! The food manager: at most one active food cell, placed off the snake,
//! eaten when the head reaches it.

use vstd::prelude::*;

use crate::space::Position;
use crate::space::in_bounds;

verus! {

/// The single food item: the cell it occupies, or `None` right after it
/// was eaten and before it is respawned.
#[derive(Clone, Copy, Debug)]
pub struct Food(pub Option<Position>);

/// The head reached the food this tick. A single-tick signal; at most one
/// food item exists, so at most one fires per tick.
#[derive(Clone, Copy, Debug)]
pub struct EatEvent;

/// Place the food item at `position`.
pub fn spawn(food: &mut Food, position: Position)
    ensures
        final(food).0 == Some(position),
{
    *food = Food(Some(position));
}

/// Place the food item on a random cell no snake segment occupies. The
/// snake must leave some cell of the arena free.
pub fn spawn_sys(food: &mut Food, snake_positions: &Vec<Position>)
    requires
        exists|p: Position| in_bounds(p) && !snake_positions@.contains(p),
    ensures
        final(food).0 is Some,
        in_bounds(final(food).0->Some_0),
        !snake_positions@.contains(final(food).0->Some_0),
{
    let p = Position::random_exceptions(snake_positions);
    *food = Food(Some(p));
}

/// Check the head against the food cell: on a match the food item is
/// destroyed and exactly one eat event fires, otherwise nothing changes.
pub fn eat(food: &mut Food, head_position: Position, eat_events: &mut Vec<EatEvent>)
    ensures
        old(food).0 == Some(head_position) ==> final(food).0 is None
            && final(eat_events)@.len() == old(eat_events)@.len() + 1,
        old(food).0 != Some(head_position) ==> final(food).0 == old(food).0
            && final(eat_events)@ == old(eat_events)@,
{
    match food.0 {
        Some(p) => {
            if p == head_position {
                *food = Food(None);
                eat_events.push(EatEvent);
            }
        },
        None => {},
    }
}

/// Whether at least one eat event fired this tick.
pub fn ate(eat_events: &Vec<EatEvent>) -> (b: bool)
    ensures
        b == (eat_events@.len() > 0),
{
    eat_events.len() > 0
}

} // verus!
