//! Identifiers of the display layer.

use vstd::prelude::*;

verus! {

/// Number by which a view is known to its dispatcher.
#[derive(Debug, Clone, Copy, PartialEq, Eq, Hash, Structural)]
pub struct ViewId(pub u32);

} // verus!
