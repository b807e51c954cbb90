//! Geometry of the window the game is drawn in.  Creating and destroying
//! the window is the terminal collaborator's job; deciding where it stands
//! and how large it is happens here.

use vstd::prelude::*;

verus! {

/// Where a window of the wanted size stands on a terminal of the given
/// bounds: the size is clamped to the bounds and the window is centred in
/// them.  Returns (origin line, origin column, lines, columns).
pub fn centred_rect(max_lines: i32, max_cols: i32, want_lines: i32, want_cols: i32) -> (r: (
    i32,
    i32,
    i32,
    i32,
))
    requires
        0 <= max_lines,
        0 <= max_cols,
        0 <= want_lines,
        0 <= want_cols,
    ensures
        r.2 == if want_lines <= max_lines {
            want_lines
        } else {
            max_lines
        },
        r.3 == if want_cols <= max_cols {
            want_cols
        } else {
            max_cols
        },
        r.0 == (max_lines - r.2) / 2,
        r.1 == (max_cols - r.3) / 2,
{
    let lines: i32 = if want_lines <= max_lines {
        want_lines
    } else {
        max_lines
    };
    let cols: i32 = if want_cols <= max_cols {
        want_cols
    } else {
        max_cols
    };
    ((max_lines - lines) / 2, (max_cols - cols) / 2, lines, cols)
}

} // verus!
