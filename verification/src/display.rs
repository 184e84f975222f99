//! The frame buffer: a grid of LEDs that are either lit or dark.

use vstd::prelude::*;

verus! {

/// A grid of `height` rows, each of `width` cells, all in the same state.
pub open spec fn uniform(width: nat, height: nat, on: bool) -> Seq<Seq<bool>> {
    Seq::new(height, |r: int| Seq::new(width, |c: int| on))
}

/// The grid of the same shape as `grid` with every cell in the state `on`.
pub open spec fn recolored(grid: Seq<Seq<bool>>, on: bool) -> Seq<Seq<bool>> {
    Seq::new(grid.len(), |r: int| Seq::new(grid[r].len(), |c: int| on))
}

/// The grid `grid` with the cell in column `x` of row `y` put in the state `on`.
pub open spec fn with_cell(grid: Seq<Seq<bool>>, x: int, y: int, on: bool) -> Seq<Seq<bool>> {
    grid.update(y, grid[y].update(x, on))
}

/// Every row of `grid` has `width` cells and there are `height` rows.
pub open spec fn rectangular(grid: Seq<Seq<bool>>, width: nat, height: nat) -> bool {
    &&& grid.len() == height
    &&& forall|r: int| 0 <= r < height ==> (#[trigger] grid[r]).len() == width
}

/// A surface of LEDs addressed by column `x` and row `y`, the origin at the
/// top left.
pub trait Display {
    /// The state of every LED, row by row.
    spec fn pixels(&self) -> Seq<Seq<bool>>;

    /// Lights one LED.
    fn led_on(&mut self, x: usize, y: usize)
        requires
            y < old(self).pixels().len(),
            x < old(self).pixels()[y as int].len(),
        ensures
            final(self).pixels() == with_cell(old(self).pixels(), x as int, y as int, true),
    ;

    /// Darkens one LED.
    fn led_off(&mut self, x: usize, y: usize)
        requires
            y < old(self).pixels().len(),
            x < old(self).pixels()[y as int].len(),
        ensures
            final(self).pixels() == with_cell(old(self).pixels(), x as int, y as int, false),
    ;

    /// Puts every LED in the state `on`.
    fn clear_screen(&mut self, on: bool)
        ensures
            final(self).pixels() == recolored(old(self).pixels(), on),
    ;

    /// Whether one LED is lit.
    fn is_on(&self, x: usize, y: usize) -> (lit: bool)
        requires
            y < self.pixels().len(),
            x < self.pixels()[y as int].len(),
        ensures
            lit == self.pixels()[y as int][x as int],
    ;
}

/// A rectangular grid of LEDs held in memory.
pub struct LedsDisplay {
    x_len: usize,
    y_len: usize,
    leds: Vec<Vec<bool>>,
}

/// The rows of a nested vector as sequences.
pub open spec fn rows_of(leds: Seq<Vec<bool>>) -> Seq<Seq<bool>> {
    Seq::new(leds.len(), |r: int| leds[r]@)
}

/// A row of `width` cells, all in the state `on`.
fn uniform_row(width: usize, on: bool) -> (row: Vec<bool>)
    ensures
        row@ == Seq::new(width as nat, |c: int| on),
{
    let mut row: Vec<bool> = Vec::new();
    let mut x: usize = 0;
    while x < width
        invariant
            x <= width,
            row@ == Seq::new(x as nat, |c: int| on),
        decreases width - x,
    {
        row.push(on);
        x += 1;
        assert(row@ =~= Seq::new(x as nat, |c: int| on));
    }
    row
}

/// Puts the cell in column `x` of row `y` in the state `on`.
fn set_cell(leds: &mut Vec<Vec<bool>>, x: usize, y: usize, on: bool)
    requires
        y < old(leds)@.len(),
        x < old(leds)@[y as int]@.len(),
    ensures
        rows_of(final(leds)@) == with_cell(rows_of(old(leds)@), x as int, y as int, on),
    no_unwind
{
    leds[y][x] = on;
    assert(rows_of(leds@) =~~= with_cell(rows_of(old(leds)@), x as int, y as int, on));
}

/// Writing one cell keeps the shape of a grid.
proof fn lemma_with_cell_shape(grid: Seq<Seq<bool>>, width: nat, height: nat, x: int, y: int, on: bool)
    requires
        rectangular(grid, width, height),
        0 <= y < height,
        0 <= x < width,
    ensures
        rectangular(with_cell(grid, x, y, on), width, height),
{
    assert forall|r: int| 0 <= r < height implies (#[trigger] with_cell(grid, x, y, on)[r]).len()
        == width by {
        assert(grid[r].len() == width);
    }
}

impl LedsDisplay {
    /// The grid is `x_len` wide and `y_len` high, as the two counts say.
    #[verifier::type_invariant]
    spec fn shaped(self) -> bool {
        rectangular(rows_of(self.leds@), self.x_len as nat, self.y_len as nat)
    }

    /// The number of columns.
    pub closed spec fn spec_width(self) -> nat {
        self.x_len as nat
    }

    /// The number of rows.
    pub closed spec fn spec_height(self) -> nat {
        self.y_len as nat
    }

    /// A grid of `x_len` columns and `y_len` rows with every LED in the
    /// state `on`.
    pub fn new(x_len: usize, y_len: usize, on: bool) -> (display: LedsDisplay)
        ensures
            display.pixels() == uniform(x_len as nat, y_len as nat, on),
            display.spec_width() == x_len,
            display.spec_height() == y_len,
    {
        let mut leds: Vec<Vec<bool>> = Vec::new();
        let mut y: usize = 0;
        while y < y_len
            invariant
                y <= y_len,
                leds@.len() == y,
                forall|r: int| 0 <= r < y ==> (#[trigger] leds@[r])@ == Seq::new(x_len as nat, |c: int| on),
            decreases y_len - y,
        {
            let row = uniform_row(x_len, on);
            leds.push(row);
            y += 1;
        }
        assert(rows_of(leds@) =~~= uniform(x_len as nat, y_len as nat, on));
        LedsDisplay { x_len, y_len, leds }
    }

    /// The number of columns.
    pub fn width(&self) -> (w: usize)
        ensures
            w == self.spec_width(),
            rectangular(self.pixels(), self.spec_width(), self.spec_height()),
    {
        proof {
            use_type_invariant(self);
        }
        self.x_len
    }

    /// The number of rows.
    pub fn height(&self) -> (h: usize)
        ensures
            h == self.spec_height(),
            rectangular(self.pixels(), self.spec_width(), self.spec_height()),
    {
        proof {
            use_type_invariant(self);
        }
        self.y_len
    }

}

impl Display for LedsDisplay {
    closed spec fn pixels(&self) -> Seq<Seq<bool>> {
        rows_of(self.leds@)
    }

    fn led_on(&mut self, x: usize, y: usize) {
        proof {
            use_type_invariant(&*self);
            lemma_with_cell_shape(rows_of(self.leds@), self.x_len as nat, self.y_len as nat, x as int, y as int, true);
        }
        set_cell(&mut self.leds, x, y, true);
    }

    fn led_off(&mut self, x: usize, y: usize) {
        proof {
            use_type_invariant(&*self);
            lemma_with_cell_shape(rows_of(self.leds@), self.x_len as nat, self.y_len as nat, x as int, y as int, false);
        }
        set_cell(&mut self.leds, x, y, false);
    }

    fn clear_screen(&mut self, on: bool) {
        proof {
            use_type_invariant(&*self);
        }
        let mut y: usize = 0;
        while y < self.y_len
            invariant
                y <= self.y_len,
                self.x_len == old(self).x_len,
                self.y_len == old(self).y_len,
                rectangular(rows_of(self.leds@), self.x_len as nat, self.y_len as nat),
                forall|r: int, c: int|
                    0 <= r < y && 0 <= c < self.x_len ==> #[trigger] rows_of(self.leds@)[r][c] == on,
            decreases self.y_len - y,
        {
            let mut x: usize = 0;
            while x < self.x_len
                invariant
                    y < self.y_len,
                    x <= self.x_len,
                    self.x_len == old(self).x_len,
                    self.y_len == old(self).y_len,
                    rectangular(rows_of(self.leds@), self.x_len as nat, self.y_len as nat),
                    forall|r: int, c: int|
                        0 <= r < y && 0 <= c < self.x_len ==> #[trigger] rows_of(self.leds@)[r][c]
                            == on,
                    forall|c: int| 0 <= c < x ==> #[trigger] rows_of(self.leds@)[y as int][c] == on,
                decreases self.x_len - x,
            {
                let ghost before = rows_of(self.leds@);
                proof {
                    assert(before[y as int].len() == self.x_len);
                    lemma_with_cell_shape(before, self.x_len as nat, self.y_len as nat, x as int, y as int, on);
                }
                set_cell(&mut self.leds, x, y, on);
                x += 1;
            }
            y += 1;
        }
        assert(rows_of(self.leds@) =~~= recolored(rows_of(old(self).leds@), on)) by {
            assert(rectangular(rows_of(old(self).leds@), self.x_len as nat, self.y_len as nat));
        }
    }

    fn is_on(&self, x: usize, y: usize) -> (lit: bool) {
        self.leds[y][x]
    }
}

} // verus!
