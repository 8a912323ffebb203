//! The decomposition of the canvas into a square grid of tiles.
//!
//! Tiles are listed row by row, top to bottom, and left to right within a row:
//! the order in which they are stitched back together. Each tile carries its
//! 1-based row and column numbers, which name its file, and its grid indices,
//! of which its plane offset is an affine function.
use vstd::prelude::*;

verus! {

/// The place of one tile in the grid.
#[derive(Clone, Copy, Debug, PartialEq, Eq, Structural)]
pub struct TilePosition {
    /// 1-based row number.
    pub row: u64,
    /// 1-based column number.
    pub column: u64,
    /// Grid index of the row, from which the vertical plane offset is derived.
    pub row_index: i64,
    /// Grid index of the column, from which the horizontal plane offset is derived.
    pub column_index: i64,
}

/// The tile in row `r` and column `c` (both 0-based) of a grid whose indices
/// start at `first`.
pub open spec fn tile_position(r: int, c: int, first: int) -> TilePosition {
    TilePosition { row: (r + 1) as u64, column: (c + 1) as u64, row_index: (first + r) as i64, column_index: (first + c) as i64 }
}

/// The tiles of the grid whose row and column indices both run over
/// `first..end`, row by row.
pub fn tile_rows(first: i64, end: i64) -> (rows: Vec<Vec<TilePosition>>)
    ensures
        rows@.len() == if end > first { end - first } else { 0 },
        forall|r: int| 0 <= r < rows@.len() ==> (#[trigger] rows@[r])@.len() == rows@.len(),
        forall|r: int, c: int| 0 <= r < rows@.len() && 0 <= c < rows@.len()
            ==> (#[trigger] rows@[r]@[c]) == tile_position(r, c, first as int),
{
    let n: u64 = if end > first { (end as i128 - first as i128) as u64 } else { 0 };
    let mut rows: Vec<Vec<TilePosition>> = Vec::new();
    let mut r: u64 = 0;
    while r < n
        invariant
            r <= n,
            n == if end > first { end - first } else { 0 },
            rows@.len() == r,
            forall|rr: int| 0 <= rr < r ==> (#[trigger] rows@[rr])@.len() == n,
            forall|rr: int, c: int| 0 <= rr < r && 0 <= c < n ==> (#[trigger] rows@[rr]@[c]) == tile_position(rr, c, first as int),
        decreases n - r,
    {
        let mut row: Vec<TilePosition> = Vec::new();
        let mut c: u64 = 0;
        while c < n
            invariant
                c <= n,
                r < n,
                n == if end > first { end - first } else { 0 },
                row@.len() == c,
                forall|cc: int| 0 <= cc < c ==> (#[trigger] row@[cc]) == tile_position(r as int, cc, first as int),
            decreases n - c,
        {
            row.push(TilePosition {
                row: r + 1,
                column: c + 1,
                row_index: (first as i128 + r as i128) as i64,
                column_index: (first as i128 + c as i128) as i64,
            });
            c = c + 1;
        }
        rows.push(row);
        r = r + 1;
    }
    rows
}

} // verus!
