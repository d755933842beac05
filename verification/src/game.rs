//! The host process's central game object, reached through a resolved
//! accessor function.

use vstd::prelude::*;

verus! {

/// Handle to the host's central game object: `offset` is the object address
/// that the resolved accessor function returned. The native getters that
/// read live values through this handle belong to the host-side shell; the
/// handle itself, and the toggles the host build keeps fixed, are plain
/// data.
pub struct CGame {
    pub offset: i64,
}

impl CGame {
    /// Wraps the object address the resolved accessor returned.
    pub fn new(offset: i64) -> (g: CGame)
        ensures
            g.offset == offset,
    {
        CGame { offset }
    }

    /// The diagnostic draw-model toggle; the host build keeps it fixed at
    /// zero.
    pub fn get_diag_draw_model(&self) -> (r: i64)
        ensures
            r == 0,
    {
        0
    }
}

} // verus!
