//! The user's desktop(s).

use vstd::prelude::*;
use crate::geom::Rect;

verus! {

/// Data associated with a desktop.
#[derive(Debug, Clone)]
pub struct Desktop {
    /// The desktop's name, if any.
    pub name: Option<String>,
    /// The desktop's work area, that is, the advised zone that excludes panels, task bars
    /// and the like.
    pub work_area: Rect<i32, u32>,
}

} // verus!
