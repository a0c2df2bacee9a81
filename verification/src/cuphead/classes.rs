//! The classes of the game that are read as a whole.

use vstd::prelude::*;

verus! {

/// What is read of the game's scene loader.
#[derive(Clone, Copy, Debug, PartialEq, Eq, Structural)]
pub struct SceneLoader {
    /// The field `doneLoadingSceneAsync` of the class.
    pub is_loading: bool,
}

} // verus!
