//! The 5x5 display as the set of its lit cells, and the button snapshot.
use crate::spiral::on_grid;
use vstd::prelude::*;

verus! {

/// The index of cell `(x, y)` in row-major order.
pub open spec fn cell_index(x: int, y: int) -> int {
    5 * x + y
}

/// The cells of the display, each lit or dark.
#[derive(Clone, Copy, Debug, PartialEq, Eq)]
pub struct DisplayPinsArray {
    cells: [bool; 25],
}

impl View for DisplayPinsArray {
    type V = Set<(int, int)>;

    /// The lit cells.
    closed spec fn view(&self) -> Set<(int, int)> {
        Set::new(|c: (int, int)| on_grid(c.0, c.1) && self.cells@[cell_index(c.0, c.1)])
    }
}

impl DisplayPinsArray {
    /// A display with every cell dark.
    pub fn new() -> (display: Self)
        ensures
            display@ == Set::<(int, int)>::empty(),
    {
        let cells: [bool; 25] = [false; 25];
        let display = DisplayPinsArray { cells };
        assert(display@ =~= Set::<(int, int)>::empty());
        display
    }

    /// Whether the cell `px` is lit.
    pub fn is_lit(&self, px: &(i8, i8)) -> (lit: bool)
        requires
            on_grid(px.0 as int, px.1 as int),
        ensures
            lit == self@.contains((px.0 as int, px.1 as int)),
    {
        let i: usize = (5 * px.0 + px.1) as usize;
        self.cells[i]
    }

    /// Light the cell `px` or darken it; every other cell stays as it is.
    fn put(&mut self, px: &(i8, i8), lit: bool)
        requires
            on_grid(px.0 as int, px.1 as int),
        ensures
            final(self)@ == if lit {
                old(self)@.insert((px.0 as int, px.1 as int))
            } else {
                old(self)@.remove((px.0 as int, px.1 as int))
            },
    {
        let i: usize = (5 * px.0 + px.1) as usize;
        self.cells[i] = lit;
        proof {
            let cell = (px.0 as int, px.1 as int);
            assert forall|c: (int, int)| on_grid(c.0, c.1) && c != cell implies cell_index(
                c.0,
                c.1,
            ) != i as int by {}
            if lit {
                assert(final(self)@ =~= old(self)@.insert(cell));
            } else {
                assert(final(self)@ =~= old(self)@.remove(cell));
            }
        }
    }
}

/// Light one cell of the display.
pub fn display_px(px: &(i8, i8), display_pins: &mut DisplayPinsArray)
    requires
        on_grid(px.0 as int, px.1 as int),
    ensures
        final(display_pins)@ == old(display_pins)@.insert((px.0 as int, px.1 as int)),
{
    display_pins.put(px, true);
}

/// Darken one cell of the display.
pub fn undisplay_px(px: &(i8, i8), display_pins: &mut DisplayPinsArray)
    requires
        on_grid(px.0 as int, px.1 as int),
    ensures
        final(display_pins)@ == old(display_pins)@.remove((px.0 as int, px.1 as int)),
{
    display_pins.put(px, false);
}

/// A snapshot of the buttons: whether the last press was on button A.
#[derive(Clone, Copy, Debug, PartialEq, Eq)]
pub struct ButtonState {
    last_a: bool,
}

impl View for ButtonState {
    type V = bool;

    /// Whether the last press was on button A.
    closed spec fn view(&self) -> bool {
        self.last_a
    }
}

impl ButtonState {
    pub fn new(last_a: bool) -> (buttons: Self)
        ensures
            buttons@ == last_a,
    {
        ButtonState { last_a }
    }

    /// Whether the last press was on button A.
    pub fn last_a(&self) -> (a: bool)
        ensures
            a == self@,
    {
        self.last_a
    }
}

} // verus!
