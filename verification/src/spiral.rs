//! Movement of the dot over the 5x5 grid.
//!
//! The dot travels on two concentric rings around the center. Two flags select
//! the rule set of a step: the rotational sense (clockwise or not) and the
//! phase (going in towards the center, or going out towards the starting
//! point).
use vstd::prelude::*;

verus! {

/// Where every round begins, and where an outbound dot comes to rest.
pub const STARTING_POINT: (i8, i8) = (0, 2);

/// The goal of an inbound dot.
pub const CENTER: (i8, i8) = (2, 2);

/// The mathematical value of a dot: a grid cell and the two flags.
pub ghost struct Position {
    pub x: int,
    pub y: int,
    pub clockwise: bool,
    pub going_in: bool,
}

/// `(x, y)` is one of the 25 cells.
pub open spec fn on_grid(x: int, y: int) -> bool {
    0 <= x <= 4 && 0 <= y <= 4
}

pub open spec fn is_center(x: int, y: int) -> bool {
    x == 2 && y == 2
}

pub open spec fn is_starting_point(x: int, y: int) -> bool {
    x == 0 && y == 2
}

/// The perimeter of the grid, the starting point included.
pub open spec fn on_outer_ring(x: int, y: int) -> bool {
    on_grid(x, y) && (x == 0 || x == 4 || y == 0 || y == 4)
}

/// The eight cells around the center.
pub open spec fn on_inner_ring(x: int, y: int) -> bool {
    1 <= x <= 3 && 1 <= y <= 3 && !is_center(x, y)
}

/// The smallest coordinate of the ring that `(x, y)` lies on; the largest is
/// `4 - ring_low(x, y)`.
pub open spec fn ring_low(x: int, y: int) -> int {
    if on_outer_ring(x, y) {
        0
    } else {
        1
    }
}

/// One clockwise step along the ring of `(x, y)`: `y` grows along the top row
/// (`x` lowest), then `x` grows along the right column, then `y` shrinks along
/// the bottom row, then `x` shrinks along the left column. At a corner the
/// edge that was being followed has ended, so the next one begins.
pub open spec fn clockwise_turn(x: int, y: int) -> (int, int) {
    let lo = ring_low(x, y);
    let hi = 4 - lo;
    if x == lo && y < hi {
        (0, 1)
    } else if y == hi && x < hi {
        (1, 0)
    } else if x == hi && y > lo {
        (0, -1)
    } else {
        (-1, 0)
    }
}

/// One counter-clockwise step along the ring of `(x, y)`: the mirror image of
/// [`clockwise_turn`].
pub open spec fn counter_clockwise_turn(x: int, y: int) -> (int, int) {
    let lo = ring_low(x, y);
    let hi = 4 - lo;
    if y == lo && x < hi {
        (1, 0)
    } else if x == hi && y < hi {
        (0, 1)
    } else if y == hi && x > lo {
        (-1, 0)
    } else {
        (0, -1)
    }
}

/// The cells at which a dot with the given flags leaves its ring by a diagonal
/// step.
pub open spec fn is_crossing(x: int, y: int, clockwise: bool, going_in: bool) -> bool {
    if going_in {
        if clockwise {
            (x == 0 && y == 1) || (x == 1 && y == 1)
        } else {
            (x == 0 && y == 3) || (x == 1 && y == 3)
        }
    } else {
        (x == 1 && y == 2) || is_center(x, y)
    }
}

/// The cell at which a dot in the given phase stays where it is.
pub open spec fn is_resting(x: int, y: int, going_in: bool) -> bool {
    if going_in {
        is_center(x, y)
    } else {
        is_starting_point(x, y)
    }
}

/// The diagonal of a crossing: inwards `x` grows, outwards it shrinks;
/// clockwise `y` grows, counter-clockwise it shrinks.
pub open spec fn diagonal(clockwise: bool, going_in: bool) -> (int, int) {
    (
        if going_in {
            1int
        } else {
            -1int
        },
        if clockwise {
            1int
        } else {
            -1int
        },
    )
}

/// What one step adds to the coordinates of a dot that stands on `(x, y)` with
/// the given flags.
pub open spec fn displacement(x: int, y: int, clockwise: bool, going_in: bool) -> (int, int) {
    if is_crossing(x, y, clockwise, going_in) {
        diagonal(clockwise, going_in)
    } else if is_resting(x, y, going_in) {
        (0, 0)
    } else if clockwise {
        clockwise_turn(x, y)
    } else {
        counter_clockwise_turn(x, y)
    }
}

impl Position {
    /// The position of a fresh dot.
    pub open spec fn start() -> Position {
        Position { x: 0, y: 2, clockwise: true, going_in: true }
    }

    pub open spec fn on_grid(self) -> bool {
        on_grid(self.x, self.y)
    }

    pub open spec fn at_center(self) -> bool {
        is_center(self.x, self.y)
    }

    pub open spec fn at_starting_point(self) -> bool {
        is_starting_point(self.x, self.y)
    }

    /// The same flags, the coordinates shifted by `d`.
    pub open spec fn moved(self, d: (int, int)) -> Position {
        Position { x: self.x + d.0, y: self.y + d.1, ..self }
    }

    pub open spec fn toggled_clockwise(self) -> Position {
        Position { clockwise: !self.clockwise, ..self }
    }

    pub open spec fn toggled_going_in(self) -> Position {
        Position { going_in: !self.going_in, ..self }
    }

    /// The step that `self` takes when the rule is chosen for the cell
    /// `(x, y)`: the cell on which the dot stood before a callback changed it.
    pub open spec fn step_from(self, x: int, y: int) -> Position {
        self.moved(displacement(x, y, self.clockwise, self.going_in))
    }

    /// One step of the dot from where it stands.
    pub open spec fn step(self) -> Position {
        self.step_from(self.x, self.y)
    }

    /// `n` steps, none of them changed by a callback.
    pub open spec fn steps(self, n: nat) -> Position
        decreases n,
    {
        if n == 0 {
            self
        } else {
            self.step().steps((n - 1) as nat)
        }
    }
}

/// State of the dot: a grid cell and the two flags.
#[derive(Clone, Copy, Debug, PartialEq, Eq)]
pub struct DotState {
    x: i8,
    y: i8,
    clockwise: bool,
    going_in: bool,
}

impl View for DotState {
    type V = Position;

    closed spec fn view(&self) -> Position {
        Position {
            x: self.x as int,
            y: self.y as int,
            clockwise: self.clockwise,
            going_in: self.going_in,
        }
    }
}

impl DotState {
    #[verifier::type_invariant]
    closed spec fn cell_on_grid(self) -> bool {
        on_grid(self.x as int, self.y as int)
    }

    /// Create a new dot at the starting point, clockwise and going in.
    pub fn new() -> (dot: Self)
        ensures
            dot@ == Position::start(),
    {
        Self { x: 0, y: 2, clockwise: true, going_in: true }
    }

    /// The coordinate of the dot.
    #[inline]
    pub fn px(&self) -> (px: (i8, i8))
        ensures
            px.0 == self@.x,
            px.1 == self@.y,
            on_grid(px.0 as int, px.1 as int),
    {
        proof {
            use_type_invariant(self);
        }
        (self.x, self.y)
    }

    /// Move the dot by one step.
    ///
    /// A dot on the center is first handed to `center_cb`, a dot on the
    /// starting point to `starting_point_cb`. The flags are read after that;
    /// the rule is the one of the cell on which the dot stood before the
    /// callback ran. A callback that moves the dot must leave it where that
    /// rule keeps it on the grid.
    pub fn spiral<SCB: FnMut(&mut Self), CB: FnMut(&mut Self)>(
        &mut self,
        mut starting_point_cb: SCB,
        mut center_cb: CB,
    )
        requires
            old(self)@.at_center() ==> forall|d: &mut DotState|
                *d == *old(self) ==> #[trigger] call_requires(center_cb, (d,)),
            old(self)@.at_center() ==> forall|d: &mut DotState|
                *d == *old(self) && #[trigger] call_ensures(center_cb, (d,), ())
                    ==> final(d)@.step_from(old(self)@.x, old(self)@.y).on_grid(),
            old(self)@.at_starting_point() ==> forall|d: &mut DotState|
                *d == *old(self) ==> #[trigger] call_requires(starting_point_cb, (d,)),
            old(self)@.at_starting_point() ==> forall|d: &mut DotState|
                *d == *old(self) && #[trigger] call_ensures(starting_point_cb, (d,), ())
                    ==> final(d)@.step_from(old(self)@.x, old(self)@.y).on_grid(),
        ensures
            !old(self)@.at_center() && !old(self)@.at_starting_point() ==> final(self)@
                == old(self)@.step(),
            old(self)@.at_center() ==> exists|d: &mut DotState|
                *d == *old(self) && #[trigger] call_ensures(center_cb, (d,), ()) && final(self)@
                    == final(d)@.step_from(old(self)@.x, old(self)@.y),
            old(self)@.at_starting_point() ==> exists|d: &mut DotState|
                *d == *old(self) && #[trigger] call_ensures(starting_point_cb, (d,), ())
                    && final(self)@ == final(d)@.step_from(old(self)@.x, old(self)@.y),
    {
        let px = self.px();
        if px.0 == CENTER.0 && px.1 == CENTER.1 {
            center_cb(self);
        } else if px.0 == STARTING_POINT.0 && px.1 == STARTING_POINT.1 {
            starting_point_cb(self);
        } else {
            proof {
                lemma_step_stays_on_grid(self@);
            }
        }
        match (self.is_clockwise(), self.is_going_in()) {
            (true, true) => self.spiral_in_cw(&px),
            (true, false) => self.spiral_out_cw(&px),
            (false, true) => self.spiral_in_ccw(&px),
            (false, false) => self.spiral_out_ccw(&px),
        }
    }

    #[inline]
    pub fn is_clockwise(&self) -> (b: bool)
        ensures
            b == self@.clockwise,
    {
        self.clockwise
    }

    #[inline]
    pub fn is_going_in(&self) -> (b: bool)
        ensures
            b == self@.going_in,
    {
        self.going_in
    }

    #[inline]
    pub fn toggle_clockwise(&mut self)
        ensures
            final(self)@ == old(self)@.toggled_clockwise(),
    {
        proof {
            use_type_invariant(&*self);
        }
        self.clockwise = !self.clockwise;
    }

    #[inline]
    pub fn toggle_going_in(&mut self)
        ensures
            final(self)@ == old(self)@.toggled_going_in(),
    {
        proof {
            use_type_invariant(&*self);
        }
        self.going_in = !self.going_in;
    }

    #[inline]
    pub fn inc_x(&mut self)
        requires
            old(self)@.x < 4,
        ensures
            final(self)@ == old(self)@.moved((1, 0)),
    {
        proof {
            use_type_invariant(&*self);
        }
        self.x = self.x + 1;
    }

    #[inline]
    pub fn inc_y(&mut self)
        requires
            old(self)@.y < 4,
        ensures
            final(self)@ == old(self)@.moved((0, 1)),
    {
        proof {
            use_type_invariant(&*self);
        }
        self.y = self.y + 1;
    }

    #[inline]
    pub fn dec_x(&mut self)
        requires
            old(self)@.x > 0,
        ensures
            final(self)@ == old(self)@.moved((-1, 0)),
    {
        proof {
            use_type_invariant(&*self);
        }
        self.x = self.x - 1;
    }

    #[inline]
    pub fn dec_y(&mut self)
        requires
            old(self)@.y > 0,
        ensures
            final(self)@ == old(self)@.moved((0, -1)),
    {
        proof {
            use_type_invariant(&*self);
        }
        self.y = self.y - 1;
    }

    /// Spiral in clockwise.
    fn spiral_in_cw(&mut self, px: &(i8, i8))
        requires
            on_grid(px.0 as int, px.1 as int),
            old(self)@.clockwise && old(self)@.going_in,
            old(self)@.step_from(px.0 as int, px.1 as int).on_grid(),
        ensures
            final(self)@ == old(self)@.step_from(px.0 as int, px.1 as int),
    {
        match *px {
            (0, 1) | (1, 1) => self.go_in_cw(),
            (2, 2) => (),
            _ => self.next_px_cw(px),
        }
    }

    /// Spiral in counter-clockwise.
    fn spiral_in_ccw(&mut self, px: &(i8, i8))
        requires
            on_grid(px.0 as int, px.1 as int),
            !old(self)@.clockwise && old(self)@.going_in,
            old(self)@.step_from(px.0 as int, px.1 as int).on_grid(),
        ensures
            final(self)@ == old(self)@.step_from(px.0 as int, px.1 as int),
    {
        match *px {
            (0, 3) | (1, 3) => self.go_in_ccw(),
            (2, 2) => (),
            _ => self.next_px_ccw(px),
        }
    }

    /// Spiral out clockwise.
    fn spiral_out_cw(&mut self, px: &(i8, i8))
        requires
            on_grid(px.0 as int, px.1 as int),
            old(self)@.clockwise && !old(self)@.going_in,
            old(self)@.step_from(px.0 as int, px.1 as int).on_grid(),
        ensures
            final(self)@ == old(self)@.step_from(px.0 as int, px.1 as int),
    {
        match *px {
            (1, 2) | (2, 2) => self.go_out_cw(),
            (0, 2) => (),
            _ => self.next_px_cw(px),
        }
    }

    /// Spiral out counter-clockwise.
    fn spiral_out_ccw(&mut self, px: &(i8, i8))
        requires
            on_grid(px.0 as int, px.1 as int),
            !old(self)@.clockwise && !old(self)@.going_in,
            old(self)@.step_from(px.0 as int, px.1 as int).on_grid(),
        ensures
            final(self)@ == old(self)@.step_from(px.0 as int, px.1 as int),
    {
        match *px {
            (1, 2) | (2, 2) => self.go_out_ccw(),
            (0, 2) => (),
            _ => self.next_px_ccw(px),
        }
    }

    /// The diagonal step of a clockwise dot that goes in.
    #[inline]
    fn go_in_cw(&mut self)
        requires
            old(self)@.moved(diagonal(true, true)).on_grid(),
        ensures
            final(self)@ == old(self)@.moved(diagonal(true, true)),
    {
        self.inc_x();
        self.inc_y();
    }

    /// The diagonal step of a clockwise dot that goes out.
    #[inline]
    fn go_out_cw(&mut self)
        requires
            old(self)@.moved(diagonal(true, false)).on_grid(),
        ensures
            final(self)@ == old(self)@.moved(diagonal(true, false)),
    {
        self.dec_x();
        self.inc_y();
    }

    /// The diagonal step of a counter-clockwise dot that goes in.
    #[inline]
    fn go_in_ccw(&mut self)
        requires
            old(self)@.moved(diagonal(false, true)).on_grid(),
        ensures
            final(self)@ == old(self)@.moved(diagonal(false, true)),
    {
        self.inc_x();
        self.dec_y();
    }

    /// The diagonal step of a counter-clockwise dot that goes out.
    #[inline]
    fn go_out_ccw(&mut self)
        requires
            old(self)@.moved(diagonal(false, false)).on_grid(),
        ensures
            final(self)@ == old(self)@.moved(diagonal(false, false)),
    {
        self.dec_x();
        self.dec_y();
    }

    /// Clockwise along the ring of `px`.
    fn next_px_cw(&mut self, px: &(i8, i8))
        requires
            on_grid(px.0 as int, px.1 as int),
            !is_center(px.0 as int, px.1 as int),
            old(self)@.moved(clockwise_turn(px.0 as int, px.1 as int)).on_grid(),
        ensures
            final(self)@ == old(self)@.moved(clockwise_turn(px.0 as int, px.1 as int)),
    {
        match *px {
            // top && !right
            (0, 0..=3) => self.inc_y(),
            // right && !bottom
            (0..=3, 4) => self.inc_x(),
            // bottom && !left
            (4, 1..=4) => self.dec_y(),
            // left && !top
            (1..=4, 0) => self.dec_x(),
            // inner layer
            // top && !right
            (1, 1) | (1, 2) => self.inc_y(),
            // right && !bottom
            (1, 3) | (2, 3) => self.inc_x(),
            // bottom && !left
            (3, 2) | (3, 3) => self.dec_y(),
            // left && !top
            _ => self.dec_x(),
        }
    }

    /// Counter-clockwise along the ring of `px`.
    fn next_px_ccw(&mut self, px: &(i8, i8))
        requires
            on_grid(px.0 as int, px.1 as int),
            !is_center(px.0 as int, px.1 as int),
            old(self)@.moved(counter_clockwise_turn(px.0 as int, px.1 as int)).on_grid(),
        ensures
            final(self)@ == old(self)@.moved(counter_clockwise_turn(px.0 as int, px.1 as int)),
    {
        match *px {
            // left && !bottom
            (0..=3, 0) => self.inc_x(),
            // bottom && !right
            (4, 0..=3) => self.inc_y(),
            // right && !top
            (1..=4, 4) => self.dec_x(),
            // top && !left
            (0, 1..=4) => self.dec_y(),
            // inner layer
            // left && !bottom
            (1, 1) | (2, 1) => self.inc_x(),
            // bottom && !right
            (3, 1) | (3, 2) => self.inc_y(),
            // right && !top
            (2, 3) | (3, 3) => self.dec_x(),
            // top && !left
            _ => self.dec_y(),
        }
    }
}

/// Every cell of the grid falls under exactly one of: the center, the
/// starting point, the rest of the outer ring, the inner ring.
pub proof fn lemma_cell_classes(x: int, y: int)
    requires
        on_grid(x, y),
    ensures
        is_center(x, y) || is_starting_point(x, y) || (on_outer_ring(x, y) && !is_starting_point(
            x,
            y,
        )) || on_inner_ring(x, y),
        !(is_center(x, y) && is_starting_point(x, y)),
        !(is_center(x, y) && on_outer_ring(x, y)),
        !(is_center(x, y) && on_inner_ring(x, y)),
        !(is_starting_point(x, y) && on_inner_ring(x, y)),
        !(on_outer_ring(x, y) && on_inner_ring(x, y)),
{
}

/// A step from any cell of the grid, under any flags, ends on the grid and
/// keeps the flags: the rules leave no state without a next one.
pub proof fn lemma_step_stays_on_grid(p: Position)
    requires
        p.on_grid(),
    ensures
        p.step().on_grid(),
        p.step().clockwise == p.clockwise,
        p.step().going_in == p.going_in,
{
}

/// A step changes at most one coordinate by one along a ring, both by one at a
/// crossing, and nothing at rest.
pub proof fn lemma_step_is_one_cell(p: Position)
    requires
        p.on_grid(),
    ensures
        ({
            let d = displacement(p.x, p.y, p.clockwise, p.going_in);
            &&& -1 <= d.0 <= 1
            &&& -1 <= d.1 <= 1
            &&& (is_resting(p.x, p.y, p.going_in) && !is_crossing(
                p.x,
                p.y,
                p.clockwise,
                p.going_in,
            ) <==> d == (0int, 0int))
            &&& (is_crossing(p.x, p.y, p.clockwise, p.going_in) <==> d.0 != 0 && d.1 != 0)
        }),
{
}

/// Whatever sequence of steps a dot takes, it stays on the grid.
pub proof fn lemma_steps_stay_on_grid(p: Position, n: nat)
    requires
        p.on_grid(),
    ensures
        p.steps(n).on_grid(),
    decreases n,
{
    if n > 0 {
        lemma_step_stays_on_grid(p);
        lemma_steps_stay_on_grid(p.step(), (n - 1) as nat);
    }
}

/// A toggle of either flag is seen by the very next step: the step of the
/// toggled position follows the rule of the new flags, not of the old ones.
pub proof fn lemma_toggle_seen_by_next_step(p: Position)
    ensures
        p.toggled_clockwise().step() == p.toggled_clockwise().moved(
            displacement(p.x, p.y, !p.clockwise, p.going_in),
        ),
        p.toggled_going_in().step() == p.toggled_going_in().moved(
            displacement(p.x, p.y, p.clockwise, !p.going_in),
        ),
        p.toggled_clockwise().toggled_going_in().step() == p.toggled_clockwise().toggled_going_in().moved(
            displacement(p.x, p.y, !p.clockwise, !p.going_in),
        ),
{
}

/// The number of steps of one full run: the sixteen cells of the outer ring
/// and the eight of the inner one.
pub open spec fn full_run() -> nat {
    16 + 8
}

/// A dot that leaves the starting point inbound, in either rotational sense,
/// goes round the outer ring, round the inner ring and onto the center. It is
/// there after exactly [`full_run`] steps and not before, and there it rests.
pub proof fn lemma_inbound_run(clockwise: bool)
    ensures
        ({
            let from = Position { x: 0, y: 2, clockwise, going_in: true };
            let to = Position { x: 2, y: 2, clockwise, going_in: true };
            &&& from.steps(full_run()) == to
            &&& forall|n: nat| n < full_run() ==> !(#[trigger] from.steps(n)).at_center()
            &&& to.step() == to
        }),
{
    reveal_with_fuel(Position::steps, 25);
}

/// The way back: with the phase toggled on the center, the dot goes round the
/// inner ring, round the outer ring, and is on the starting point again, phase
/// still toggled, after exactly [`full_run`] steps and not before. There it
/// rests.
pub proof fn lemma_outbound_run(clockwise: bool)
    ensures
        ({
            let from = Position { x: 2, y: 2, clockwise, going_in: true }.toggled_going_in();
            let to = Position { x: 0, y: 2, clockwise, going_in: true }.toggled_going_in();
            &&& from.steps(full_run()) == to
            &&& forall|n: nat| n < full_run() ==> !(#[trigger] from.steps(n)).at_starting_point()
            &&& to.step() == to
        }),
{
    reveal_with_fuel(Position::steps, 25);
}

} // verus!
