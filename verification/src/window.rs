//! Which saved window position is applied at start-up.

use vstd::prelude::*;

verus! {

/// The horizontal window position of a fresh configuration.
pub const DEFAULT_WINDOW_X: i32 = 100;

/// The vertical window position of a fresh configuration.
pub const DEFAULT_WINDOW_Y: i32 = 100;

/// The saved position `(x, y)` where it differs from the default one; `None` where the
/// window is left where the system puts it.
pub fn position_to_restore(x: i32, y: i32) -> (res: Option<(i32, i32)>)
    ensures
        res is None <==> (x == DEFAULT_WINDOW_X && y == DEFAULT_WINDOW_Y),
        res matches Some(p) ==> p == (x, y),
{
    if x != DEFAULT_WINDOW_X || y != DEFAULT_WINDOW_Y {
        Some((x, y))
    } else {
        None
    }
}

} // verus!
