//! A marker for the game scene's registration with the host engine. The
//! camera setup such a plugin installs is engine work and stays outside
//! the library.

use vstd::prelude::*;

verus! {

/// Marker for the game scene's registration with the host engine.
pub struct GameScenePlugin;

} // verus!
