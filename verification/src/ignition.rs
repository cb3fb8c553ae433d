//! Placing ignitions by hand: whether a left-click lights a fire, and whether
//! a fire could start where the cursor is.
use vstd::prelude::*;

verus! {

/// What a left-click currently means to the ignition tool.
#[derive(Debug, Clone, Copy, PartialEq, Eq, Structural)]
pub enum EditMode {
    /// Left-drag orbits the camera, as normal.
    Off,
    /// Left-click lights a fire.
    Place,
}

impl Default for EditMode {
    fn default() -> (r: EditMode)
        ensures
            r == EditMode::Off,
    {
        EditMode::Off
    }
}

/// Cell `(row, col)` lies on the grid and carries burnable fuel; `burnable`
/// is the grid row by row.
pub open spec fn burnable_at(burnable: Seq<bool>, rows: int, cols: int, row: int, col: int) -> bool {
    0 <= row < rows && 0 <= col < cols && burnable[row * cols + col]
}

/// Some cell within `r` cells of `(row, col)` (by squared distance, the disk
/// the fire model ignites) lies on the grid and is burnable.
pub open spec fn patch_can_burn(
    burnable: Seq<bool>,
    rows: int,
    cols: int,
    row: int,
    col: int,
    r: int,
) -> bool {
    exists|dr: int, dc: int|
        -r <= dr <= r && -r <= dc <= r && dr * dr + dc * dc <= r * r && #[trigger] burnable_at(
            burnable,
            rows,
            cols,
            row + dr,
            col + dc,
        )
}

/// Whether a patch of radius `r` cells centred on `(row, col)` would find
/// anything to burn — asked before the click, so the cursor can say no.
pub fn ignitable(burnable: &Vec<bool>, rows: usize, cols: usize, row: usize, col: usize, r: i64) -> (b: bool)
    requires
        burnable@.len() == rows * cols,
        r <= 0x7fff_ffff,
        row < 0x4000_0000_0000_0000,
        col < 0x4000_0000_0000_0000,
    ensures
        b == patch_can_burn(burnable@, rows as int, cols as int, row as int, col as int, r as int),
{
    if r < 0 {
        return false;
    }
    let total = burnable.len();
    let ri: i64 = r;
    let mut dr: i64 = -ri;
    while dr <= ri
        invariant
            burnable@.len() == rows * cols,
            total == rows * cols,
            0 <= ri <= 0x7fff_ffff,
            ri == r,
            -ri <= dr <= ri + 1,
            row < 0x4000_0000_0000_0000,
            col < 0x4000_0000_0000_0000,
            forall|a: int, c: int|
                -ri <= a < dr && -ri <= c <= ri && a * a + c * c <= ri * ri ==> !#[trigger] burnable_at(
                    burnable@,
                    rows as int,
                    cols as int,
                    row + a,
                    col + c,
                ),
        decreases ri + 1 - dr,
    {
        let mut dc: i64 = -ri;
        while dc <= ri
            invariant
                burnable@.len() == rows * cols,
                total == rows * cols,
                0 <= ri <= 0x7fff_ffff,
                ri == r,
                -ri <= dr <= ri,
                -ri <= dc <= ri + 1,
                row < 0x4000_0000_0000_0000,
                col < 0x4000_0000_0000_0000,
                forall|a: int, c: int|
                    -ri <= a < dr && -ri <= c <= ri && a * a + c * c <= ri * ri
                        ==> !#[trigger] burnable_at(burnable@, rows as int, cols as int, row + a, col + c),
                forall|c: int|
                    -ri <= c < dc && dr * dr + c * c <= ri * ri ==> !#[trigger] burnable_at(
                        burnable@,
                        rows as int,
                        cols as int,
                        row + dr,
                        col + c,
                    ),
            decreases ri + 1 - dc,
        {
            assert(0 <= dr * dr <= 0x3fff_ffff_0000_0001) by (nonlinear_arith)
                requires
                    -0x7fff_ffff <= dr <= 0x7fff_ffff,
            ;
            assert(0 <= dc * dc <= 0x3fff_ffff_0000_0001) by (nonlinear_arith)
                requires
                    -0x7fff_ffff <= dc <= 0x7fff_ffff,
            ;
            assert(0 <= ri * ri <= 0x3fff_ffff_0000_0001) by (nonlinear_arith)
                requires
                    0 <= ri <= 0x7fff_ffff,
            ;
            let inside = dr * dr + dc * dc <= ri * ri;
            let rr: i64 = row as i64 + dr;
            let cc: i64 = col as i64 + dc;
            if inside && rr >= 0 && cc >= 0 && (rr as u64) < (rows as u64) && (cc as u64) < (cols as u64) {
                let ru = rr as usize;
                let cu = cc as usize;
                assert(ru * cols + cu < total) by (nonlinear_arith)
                    requires
                        ru < rows,
                        cu < cols,
                        total == rows * cols,
                ;
                let idx = ru * cols + cu;
                if burnable[idx] {
                    assert(burnable_at(burnable@, rows as int, cols as int, row + dr, col + dc));
                    return true;
                }
            }
            dc = dc + 1;
        }
        dr = dr + 1;
    }
    false
}

/// What one left-click does with the ignition tool.
#[derive(Debug, Clone, Copy, PartialEq, Eq, Structural)]
pub enum Ignite {
    /// Nothing: the tool is off, there was no click, the cursor is off the
    /// map, or nothing there can burn (the ring already says so).
    Nothing,
    /// Light a fire under the cursor.
    Light,
}

/// `hover` is where the cursor is on the ground, if anywhere, and whether a
/// fire could start there.
pub fn click(mode: EditMode, clicked: bool, hover: Option<bool>) -> (r: Ignite)
    ensures
        r == (if mode == EditMode::Place && clicked && hover == Some(true) {
            Ignite::Light
        } else {
            Ignite::Nothing
        }),
{
    if mode != EditMode::Place || !clicked {
        return Ignite::Nothing;
    }
    match hover {
        Some(true) => Ignite::Light,
        _ => Ignite::Nothing,
    }
}

} // verus!
