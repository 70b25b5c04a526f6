//! The round: an animation of sixteen ticks in which the dot blinks against
//! the center marker, takes one step, and names a winner once it is found on
//! the center.
use crate::display::{display_px, undisplay_px, ButtonState, DisplayPinsArray};
use crate::spiral::{
    displacement, on_inner_ring, on_outer_ring, DotState, Position, CENTER,
};
use vstd::prelude::*;

verus! {

/// The counter's value before the first tick of a round.
pub const INIT_CNT: i8 = -1;

const COUNTER_MASK: i8 = 0b1111;

#[derive(PartialEq, Eq, Clone, Copy, Debug, Structural)]
pub enum Players {
    A,
    B,
}

/// The player whose turn the rotational sense of the dot stands for:
/// clockwise is A, counter-clockwise is B.
pub open spec fn turn_holder(p: Position) -> Players {
    if p.clockwise {
        Players::A
    } else {
        Players::B
    }
}

/// The last press does not belong to the player who holds the turn: A holds it
/// and the last press was not A's, or B holds it and the last press was A's.
pub open spec fn turn_is_taken(p: Position, last_a: bool) -> bool {
    match turn_holder(p) {
        Players::A => !last_a,
        Players::B => last_a,
    }
}

/// The dot after the buttons were looked at: both flags are toggled where the
/// turn is taken from its holder.
pub open spec fn after_buttons(p: Position, last_a: bool) -> Position {
    if turn_is_taken(p, last_a) {
        p.toggled_clockwise().toggled_going_in()
    } else {
        p
    }
}

/// What happens to a dot that is found on the starting point: it moves one
/// cell along the top row in its rotational sense, and its phase is toggled.
pub open spec fn turned_at_start(p: Position) -> Position {
    p.moved(
        (
            0,
            if p.clockwise {
                1int
            } else {
                -1int
            },
        ),
    ).toggled_going_in()
}

/// The dot after the step of a round's last tick.
pub open spec fn round_step(p: Position, last_a: bool) -> Position {
    let q = after_buttons(p, last_a);
    if q.at_starting_point() {
        turned_at_start(q).step_from(q.x, q.y)
    } else {
        q.step()
    }
}

/// The winner that the step of a round's last tick declares: the holder of the
/// turn, the buttons taken into account, where the dot is found on the center.
pub open spec fn round_winner(p: Position, last_a: bool) -> Option<Players> {
    if p.at_center() {
        Some(turn_holder(after_buttons(p, last_a)))
    } else {
        None
    }
}

/// The counter after a tick: it counts up and wraps from 15 to 0. Whatever it
/// was, it lies between 0 and 15 afterwards.
pub open spec fn next_count(cnt: int) -> int {
    (cnt + 1) % 16
}

/// The lit cells after a tick at counter value `cnt`, for a dot that stood on
/// `before` and stands on `after`, where `lit` were lit.
pub open spec fn frame_after(
    cnt: int,
    before: Position,
    after: Position,
    won: bool,
    lit: Set<(int, int)>,
) -> Set<(int, int)> {
    let center = (2int, 2int);
    if cnt == -1 {
        lit.insert((before.x, before.y))
    } else if cnt == 6 || cnt == 14 {
        lit.remove((before.x, before.y)).insert(center)
    } else if cnt == 7 {
        lit.remove(center).insert((before.x, before.y))
    } else if cnt == 15 {
        if won {
            lit.remove(center)
        } else {
            lit.remove(center).insert((after.x, after.y))
        }
    } else {
        lit
    }
}

/// One tick of the round.
///
/// The dot is drawn at the first tick, swapped against the center marker at
/// ticks 6 and 14, and swapped back at tick 7. At tick 15 the marker is hidden
/// and the dot takes its step; it is drawn again unless the step declared a
/// winner. The counter goes on after every tick.
pub fn game(
    cnt: &mut i8,
    dot: &mut DotState,
    buttons: &ButtonState,
    display_pins: &mut DisplayPinsArray,
) -> (winner: Option<Players>)
    requires
        *old(cnt) < i8::MAX,
    ensures
        *final(cnt) == next_count(*old(cnt) as int),
        0 <= *final(cnt) <= 15,
        final(dot)@ == if *old(cnt) == 15 {
            round_step(old(dot)@, buttons@)
        } else {
            old(dot)@
        },
        winner == if *old(cnt) == 15 {
            round_winner(old(dot)@, buttons@)
        } else {
            None
        },
        final(display_pins)@ == frame_after(
            *old(cnt) as int,
            old(dot)@,
            final(dot)@,
            winner is Some,
            old(display_pins)@,
        ),
{
    let mut winner: Option<Players> = None;
    // display the running dot and goal position
    match *cnt {
        -1 => display_px(&dot.px(), display_pins),
        6 | 14 => {
            undisplay_px(&dot.px(), display_pins);
            display_px(&CENTER, display_pins);
        },
        7 => {
            undisplay_px(&CENTER, display_pins);
            display_px(&dot.px(), display_pins);
        },
        15 => {
            undisplay_px(&CENTER, display_pins);
            winner = dot_game_spiral(dot, buttons);
            if winner.is_none() {
                display_px(&dot.px(), display_pins);
            }
        },
        _ => (),
    }
    // increment counter
    let c: i8 = *cnt;
    assert((c + 1) as i8 & 0b1111i8 == (c + 1) % 16) by (bit_vector)
        requires
            c < 127,
    ;
    *cnt = (c + 1) & COUNTER_MASK;
    winner
}

/// What the round does to a dot on the starting point.
pub fn turn_at_start(dot: &mut DotState)
    requires
        old(dot)@.at_starting_point(),
    ensures
        final(dot)@ == turned_at_start(old(dot)@),
{
    if dot.is_clockwise() {
        dot.inc_y();
    } else {
        dot.dec_y();
    }
    dot.toggle_going_in();
}

/// What the round does to a dot on the center: nothing.
pub fn rest_at_center(dot: &mut DotState)
    ensures
        *final(dot) == *old(dot),
{
}

/// Keeps the compiler from moving a memory access from one side of the call to
/// the other. This is `core::sync::atomic::compiler_fence` with sequentially
/// consistent ordering; nothing is claimed of it.
#[verifier::external_body]
fn sequencing_barrier() {
    core::sync::atomic::compiler_fence(core::sync::atomic::Ordering::SeqCst);
}

/// Compute the next dot position for the game, and the winner if the dot is
/// found on the center. The buttons have their say before the step, and the
/// step goes by the flags that they leave.
pub fn dot_game_spiral(dot: &mut DotState, buttons: &ButtonState) -> (winner: Option<Players>)
    ensures
        final(dot)@ == round_step(old(dot)@, buttons@),
        winner == round_winner(old(dot)@, buttons@),
{
    update_dot_motion(dot, buttons);
    sequencing_barrier();
    let px = dot.px();
    let winner = if px.0 == CENTER.0 && px.1 == CENTER.1 {
        Some(who_is_upper_hand(dot))
    } else {
        None
    };
    dot.spiral(turn_at_start, rest_at_center);
    winner
}

/// Toggle both flags of the dot where the last press takes the turn from its
/// holder.
pub fn update_dot_motion(dot: &mut DotState, buttons: &ButtonState)
    ensures
        final(dot)@ == after_buttons(old(dot)@, buttons@),
        final(dot)@.clockwise == buttons@,
{
    match (who_is_upper_hand(dot), buttons.last_a()) {
        (Players::A, false) | (Players::B, true) => {
            dot.toggle_clockwise();
            dot.toggle_going_in();
        },
        _ => (),
    }
}

/// The player who holds the turn.
#[inline]
pub fn who_is_upper_hand(dot: &DotState) -> (player: Players)
    ensures
        player == turn_holder(dot@),
        dot@.clockwise ==> player == Players::A,
        !dot@.clockwise ==> player == Players::B,
{
    match dot.is_clockwise() {
        true => Players::A,
        false => Players::B,
    }
}

/// A winner is declared exactly when the dot is found on the center, and it is
/// A where the dot runs clockwise once the buttons were looked at, B where it
/// runs counter-clockwise; that is, A where the last press was A's.
pub proof fn lemma_winner_by_sense(p: Position, last_a: bool)
    ensures
        round_winner(p, last_a) is Some <==> p.at_center(),
        p.at_center() && after_buttons(p, last_a).clockwise ==> round_winner(p, last_a) == Some(
            Players::A,
        ),
        p.at_center() && !after_buttons(p, last_a).clockwise ==> round_winner(p, last_a) == Some(
            Players::B,
        ),
        after_buttons(p, last_a).clockwise == last_a,
{
}

/// The flags that the buttons set are the flags by which the step of the same
/// tick is chosen: the dot moves as its position with the new flags does.
pub proof fn lemma_step_follows_buttons(p: Position, last_a: bool)
    requires
        !p.at_starting_point(),
    ensures
        round_step(p, last_a) == after_buttons(p, last_a).step(),
        round_step(p, last_a).clockwise == last_a,
        turn_is_taken(p, last_a) ==> round_step(p, last_a) == after_buttons(p, last_a).moved(
            displacement(p.x, p.y, !p.clockwise, !p.going_in),
        ),
{
}

/// The step of a round keeps the dot on the grid.
pub proof fn lemma_round_step_on_grid(p: Position, last_a: bool)
    requires
        p.on_grid(),
    ensures
        round_step(p, last_a).on_grid(),
{
}

/// One thing that can happen to a dot.
pub ghost enum Event {
    /// A step that no callback changes.
    Step,
    ToggleClockwise,
    ToggleGoingIn,
    /// The step of a round's last tick, with the buttons as they are then.
    Round { last_a: bool },
}

pub open spec fn after_event(p: Position, event: Event) -> Position {
    match event {
        Event::Step => p.step(),
        Event::ToggleClockwise => p.toggled_clockwise(),
        Event::ToggleGoingIn => p.toggled_going_in(),
        Event::Round { last_a } => round_step(p, last_a),
    }
}

/// The dot after `events`, the first of them first.
pub open spec fn after_events(p: Position, events: Seq<Event>) -> Position
    decreases events.len(),
{
    if events.len() == 0 {
        p
    } else {
        after_event(after_events(p, events.drop_last()), events.last())
    }
}

/// Whatever happens to a dot after the start of a round, it stands on a cell
/// of the grid, and that cell is of exactly one kind: the center, the starting
/// point, another cell of the outer ring, or a cell of the inner ring.
pub proof fn lemma_reachable_on_grid(events: Seq<Event>)
    ensures
        after_events(Position::start(), events).on_grid(),
        ({
            let p = after_events(Position::start(), events);
            let kinds = (if p.at_center() {
                1int
            } else {
                0int
            }) + (if p.at_starting_point() {
                1int
            } else {
                0int
            }) + (if on_outer_ring(p.x, p.y) && !p.at_starting_point() {
                1int
            } else {
                0int
            }) + (if on_inner_ring(p.x, p.y) {
                1int
            } else {
                0int
            });
            kinds == 1
        }),
    decreases events.len(),
{
    if events.len() > 0 {
        lemma_reachable_on_grid(events.drop_last());
    }
}

} // verus!
