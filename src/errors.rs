use vstd::prelude::*;

verus! {

/// Why an operation on a session was refused.
///
/// Every refused operation leaves the session unchanged.
#[derive(Clone, Copy, Debug, PartialEq, Eq, Structural)]
pub enum RoulleteErrors {
    /// The session has a winner; no shot is accepted any more.
    SessionAlreadyOver,
    /// The session already holds two players and cannot be joined again.
    SessionAlreadyStarted,
    /// A branch that the other checks rule out was reached.
    InternalGameError,
    /// The shooter is not the player whose turn it is.
    NotPlayersTurn,
    /// The target is neither of the two players.
    InvalidTarget,
    /// Both seats of a session were given the same player.
    IdenticalPlayers,
}

} // verus!
