//! What drawing a sprite does to a grid of pixels: each set bit of the sprite
//! flips the pixel under it, and whatever falls outside the grid is cut off.

use vstd::prelude::*;

verus! {

/// The number of pixels in a row of a sprite, one for each bit of a byte.
pub const SPRITE_WIDTH: u8 = 8;

/// Whether the pixel in column `col` of a sprite row is set. Column 0 is the
/// leftmost pixel and lies in the highest bit of the row's byte.
pub open spec fn bit_at(row: u8, col: int) -> bool
    recommends
        0 <= col < 8,
{
    (row >> ((7 - col) as u8)) & 1 == 1
}

/// Whether a sprite whose top left corner lies at column `x0`, row `y0` has a
/// set pixel over the cell in column `c` of row `r`.
pub open spec fn covers(sprite: Seq<u8>, x0: int, y0: int, c: int, r: int) -> bool {
    &&& 0 <= r - y0 < sprite.len()
    &&& 0 <= c - x0 < 8
    &&& bit_at(sprite[r - y0], c - x0)
}

/// The grid after the sprite was drawn on it at `(x0, y0)`: the cells under a
/// set pixel of the sprite are flipped, all others keep their state.
pub open spec fn drawn(grid: Seq<Seq<bool>>, sprite: Seq<u8>, x0: int, y0: int) -> Seq<Seq<bool>> {
    Seq::new(
        grid.len(),
        |r: int| Seq::new(grid[r].len(), |c: int| grid[r][c] != covers(sprite, x0, y0, c, r)),
    )
}

/// Whether some set pixel of the sprite lies over a cell of the grid.
pub open spec fn touches(grid: Seq<Seq<bool>>, sprite: Seq<u8>, x0: int, y0: int) -> bool {
    exists|c: int, r: int|
        0 <= r < grid.len() && 0 <= c < grid[r].len() && #[trigger] covers(sprite, x0, y0, c, r)
}

/// Whether drawing the sprite at `(x0, y0)` turns off a cell that was lit.
pub open spec fn collides(grid: Seq<Seq<bool>>, sprite: Seq<u8>, x0: int, y0: int) -> bool {
    exists|c: int, r: int|
        0 <= r < grid.len() && 0 <= c < grid[r].len() && grid[r][c] && #[trigger] covers(
            sprite,
            x0,
            y0,
            c,
            r,
        )
}

/// Whether every cell of the grid is dark.
pub open spec fn blank(grid: Seq<Seq<bool>>) -> bool {
    forall|c: int, r: int| 0 <= r < grid.len() && 0 <= c < grid[r].len() ==> !(#[trigger] grid[r][c])
}

/// Drawing a sprite twice at the same place gives the grid back: the second
/// draw undoes the first.
pub proof fn draw_twice_restores(grid: Seq<Seq<bool>>, sprite: Seq<u8>, x0: int, y0: int)
    ensures
        drawn(drawn(grid, sprite, x0, y0), sprite, x0, y0) == grid,
{
    assert(drawn(drawn(grid, sprite, x0, y0), sprite, x0, y0) =~~= grid);
}

/// On a blank grid the first draw of a sprite never collides, and the second
/// draw at the same place collides exactly when the sprite has a set pixel
/// over the grid.
pub proof fn second_draw_collides(grid: Seq<Seq<bool>>, sprite: Seq<u8>, x0: int, y0: int)
    requires
        blank(grid),
    ensures
        !collides(grid, sprite, x0, y0),
        collides(drawn(grid, sprite, x0, y0), sprite, x0, y0) <==> touches(grid, sprite, x0, y0),
{
    let once = drawn(grid, sprite, x0, y0);
    if touches(grid, sprite, x0, y0) {
        let (c, r) = choose|c: int, r: int|
            0 <= r < grid.len() && 0 <= c < grid[r].len() && #[trigger] covers(sprite, x0, y0, c, r);
        assert(!grid[r][c]);
        assert(once[r][c]);
        assert(0 <= r < once.len() && 0 <= c < once[r].len() && once[r][c] && covers(
            sprite,
            x0,
            y0,
            c,
            r,
        ));
    }
    if collides(once, sprite, x0, y0) {
        let (c, r) = choose|c: int, r: int|
            0 <= r < once.len() && 0 <= c < once[r].len() && once[r][c] && #[trigger] covers(
                sprite,
                x0,
                y0,
                c,
                r,
            );
        assert(0 <= r < grid.len() && 0 <= c < grid[r].len() && covers(sprite, x0, y0, c, r));
    }
}

} // verus!
