use vstd::prelude::*;

verus! {

/// The two recoverable error kinds of the engine.
///
/// `InvalidAction` is returned when a requested move cannot be legally
/// completed (spending or stealing a cube that is not held, or healing above
/// maximum health); the engine rolls the attempt back and the game goes on.
/// `ParseError` is returned when a textual command does not match any known
/// token pattern; no game state is touched.
#[derive(Clone, Copy, Debug, PartialEq, Eq, Structural)]
pub enum ColorMixError {
    InvalidAction,
    ParseError,
}

} // verus!
