use vstd::prelude::*;

verus! {

/// Everything that can abort a game run.
///
/// All of these are terminal for the run: the game loop surfaces them and
/// stops rather than retrying.
#[derive(Clone, Copy, PartialEq, Eq, Structural, Debug)]
pub enum GameError {
    /// The word-list resource was missing or unreadable at startup.
    Startup,
    /// The network call to the oracle could not complete.
    Transport,
    /// The oracle's response did not match the expected feedback shape.
    Protocol,
    /// Elimination narrowed the candidate set to empty before a guess
    /// could be picked.
    NoCandidatesRemaining,
}

} // verus!
