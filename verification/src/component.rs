//! Scene components: a component attaches to a transform of the scene
//! tree and carries the life cycle of a scene object.

use vstd::prelude::*;

verus! {

/// Identifies a transform in the scene tree.
#[derive(Clone, Copy, PartialEq, Eq, Structural, Debug)]
pub struct TransformId {
    pub index: usize,
}

/// A component attaches to a transform and gives it functionality. It
/// handles the life cycle of a scene object.
pub trait Component {
    /// Returns the parent transform of the component.
    fn parent(&self) -> &TransformId;

    /// Runs when the component is appended to its parent transform.
    fn initialize(&self) {
    }

    /// Runs at the start of the first frame.
    fn start(&self) {
    }

    /// Runs each frame.
    fn update(&self) {
    }

    /// Runs before the component is destroyed.
    fn destroy(&self) {
    }
}

} // verus!
