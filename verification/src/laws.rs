use vstd::prelude::*;
use crate::game::GameView;
use crate::grid::{Coordinates, State};

verus! {

/// A run of sessions in which each one follows from the one before by a tick.
pub open spec fn is_play(trace: Seq<GameView>) -> bool {
    forall|k: int| 0 <= k < trace.len() - 1 ==> (#[trigger] trace[k]).ticks_to(trace[k + 1])
}

/// A respawn touches nothing but the food.
pub proof fn lemma_refill_keeps_snake(before: GameView, after: GameView)
    requires
        before.refilled(after),
    ensures
        after == (GameView { food: after.food, ..before }),
{
}

/// A tick that leaves the session running keeps the snake's length, or adds
/// one to it when food lay on the cell that the head moved to.
pub proof fn law_length_after_tick(before: GameView, after: GameView)
    requires
        before.ticks_to(after),
        after.state == State::Running,
    ensures
        after.length() == before.length() + if before.food.contains(
            before.head.stepped(before.direction),
        ) {
            1nat
        } else {
            0nat
        },
{
    lemma_refill_keeps_snake(before.advanced(), after);
}

/// A tick that ends a running session leaves the neck that the movement
/// pushed in place: the snake is one segment longer than before.
pub proof fn law_length_at_collision(before: GameView, after: GameView)
    requires
        before.ticks_to(after),
        before.state == State::Running,
        after.state == State::GameOver,
    ensures
        after.length() == before.length() + 1,
        after.body == seq![before.head] + before.body,
        after.head == before.head.stepped(before.direction),
{
    if before.advanced().state == State::Running {
        lemma_refill_keeps_snake(before.advanced(), after);
    }
}

/// A tick keeps a session in order: while it runs the head stays inside the
/// border and off the body, and the food stays off the snake.
pub proof fn law_tick_keeps_order(before: GameView, after: GameView)
    requires
        before.wf(),
        before.ticks_to(after),
    ensures
        after.wf(),
{
    let mid = before.advanced();
    if mid.state == State::Running {
        lemma_refill_keeps_snake(mid, after);
        crate::game::lemma_fed_keeps_order(before);
    }
}

/// After a tick on a session in order, a running session has exactly one food
/// item, on an interior cell and not under the snake, as long as the snake
/// leaves an interior cell free.
pub proof fn law_food_after_tick(before: GameView, after: GameView)
    requires
        before.wf(),
        before.ticks_to(after),
        after.state == State::Running,
        after.has_free_cell(),
    ensures
        after.food.len() == 1,
        after.arena.interior(after.food[0]),
        after.food[0] != after.head,
        !after.body.contains(after.food[0]),
        forall|i: int| 0 <= i < after.food.len() ==> !after.occupied(#[trigger] after.food[i]),
{
    let mid = before.advanced();
    lemma_refill_keeps_snake(mid, after);
    crate::game::lemma_fed_keeps_order(before);
    let witness = choose|cell: Coordinates| #[trigger] after.free_cell(cell);
    assert(mid.free_cell(witness));
}

/// A tick whose new head lands on a body segment or on the border ends the
/// session and leaves the score as it was.
pub proof fn law_collision_ends(before: GameView, after: GameView)
    requires
        before.ticks_to(after),
        before.moved().hits_tail() || before.moved().hits_border(),
    ensures
        after.state == State::GameOver,
        after.score == before.score,
{
}

/// One tick leaves the score as it was or adds one to it, and it adds one
/// exactly when a running session's head moves onto food without colliding.
pub proof fn law_score_step(before: GameView, after: GameView)
    requires
        before.ticks_to(after),
    ensures
        after.score == before.score || after.score == before.score + 1,
        after.score == before.score + 1 <==> before.state == State::Running
            && !before.moved().hits_tail() && !before.moved().hits_border()
            && before.moved().eats(),
{
    if before.advanced().state == State::Running {
        lemma_refill_keeps_snake(before.advanced(), after);
    }
}

/// Over any run of ticks the score never goes down.
pub proof fn law_score_monotone(trace: Seq<GameView>, i: int, j: int)
    requires
        is_play(trace),
        0 <= i <= j < trace.len(),
    ensures
        trace[i].score <= trace[j].score,
    decreases j - i,
{
    if i < j {
        law_score_monotone(trace, i, j - 1);
        assert(trace[j - 1].ticks_to(trace[j - 1 + 1]));
        law_score_step(trace[j - 1], trace[j]);
    }
}

/// An ended session stays exactly as it is, however many ticks follow.
pub proof fn law_game_over_is_final(trace: Seq<GameView>, i: int, j: int)
    requires
        is_play(trace),
        0 <= i <= j < trace.len(),
        trace[i].state == State::GameOver,
    ensures
        trace[j] == trace[i],
    decreases j - i,
{
    if i < j {
        law_game_over_is_final(trace, i, j - 1);
        assert(trace[j - 1].ticks_to(trace[j - 1 + 1]));
    }
}

/// A session never comes back from its end: once a tick has ended it, every
/// later session in the run is ended too.
pub proof fn law_running_before_running(trace: Seq<GameView>, i: int, j: int)
    requires
        is_play(trace),
        0 <= i <= j < trace.len(),
        trace[j].state == State::Running,
    ensures
        trace[i].state == State::Running,
{
    if trace[i].state == State::GameOver {
        law_game_over_is_final(trace, i, j);
    }
}

} // verus!
