//! Properties of the game that hold across operations.
use vstd::prelude::*;

use crate::errors::RoulleteErrors;
use crate::identity::Identity;
use crate::session::{
    chamber_index,
    cylinder,
    fresh_session,
    loaded_at,
    payout_due,
    released,
    Payout,
    SessionView,
    State,
    PAYOUT_LAMPORTS,
};

verus! {

/// A freshly started session has exactly one loaded chamber, the one that
/// its entropy sample and timestamp select, and is well formed.
pub proof fn lemma_fresh_session_one_loaded(
    player_one: Identity,
    player_two: Identity,
    entropy: Seq<u8>,
    timestamp: i64,
)
    requires
        player_one != player_two,
    ensures
        fresh_session(player_one, player_two, entropy, timestamp).wf(),
        loaded_at(
            fresh_session(player_one, player_two, entropy, timestamp).chambers,
            chamber_index(entropy, timestamp),
        ),
{
    let k = chamber_index(entropy, timestamp);
    let v = fresh_session(player_one, player_two, entropy, timestamp);
    assert(0 <= k < 6);
    assert(loaded_at(cylinder(k), k));
    assert(loaded_at(v.chambers, k));
}

/// No accepted shot and no payout changes the cylinder, and both keep the
/// session well formed; so the one loaded chamber stays where it was put.
pub proof fn lemma_cylinder_fixed(v: SessionView, shooter: Identity, target: Identity)
    requires
        v.wf(),
    ensures
        released(v).chambers == v.chambers,
        released(v).wf(),
        v.shot(shooter, target) matches Ok(n) ==> n.chambers == v.chambers && n.wf(),
        forall|k: int| loaded_at(v.chambers, k) ==> loaded_at(released(v).chambers, k),
{
    let k = choose|k: int| loaded_at(v.chambers, k);
    assert(loaded_at(released(v).chambers, k));
    if let Ok(n) = v.shot(shooter, target) {
        if k < v.shots_fired {
            assert(!v.chambers[k]);
        }
        assert(loaded_at(n.chambers, k));
    }
}

/// A shot by anyone but the player whose turn it is is refused: as out of
/// turn while the game goes on, as too late once it is over.
pub proof fn lemma_out_of_turn_refused(v: SessionView, shooter: Identity, target: Identity)
    requires
        shooter != v.turn_holder(),
    ensures
        v.is_active() ==> v.shot(shooter, target) == Err::<SessionView, _>(
            RoulleteErrors::NotPlayersTurn,
        ),
        !v.is_active() ==> v.shot(shooter, target) == Err::<SessionView, _>(
            RoulleteErrors::SessionAlreadyOver,
        ),
{
}

/// A won session refuses every shot, also after its payout was released.
pub proof fn lemma_finished_refuses_shots(v: SessionView, shooter: Identity, target: Identity)
    requires
        !v.is_active(),
    ensures
        v.shot(shooter, target) == Err::<SessionView, _>(RoulleteErrors::SessionAlreadyOver),
        released(v).shot(shooter, target) == Err::<SessionView, _>(
            RoulleteErrors::SessionAlreadyOver,
        ),
{
}

/// The cylinder depends on the entropy sample and the timestamp alone: the
/// same two values load the same chamber, whoever the players are.
pub proof fn lemma_loading_reproducible(
    a_one: Identity,
    a_two: Identity,
    b_one: Identity,
    b_two: Identity,
    entropy: Seq<u8>,
    timestamp: i64,
)
    ensures
        fresh_session(a_one, a_two, entropy, timestamp).chambers == fresh_session(
            b_one,
            b_two,
            entropy,
            timestamp,
        ).chambers,
{
}

/// An empty chamber fired by the current player at themself keeps the turn
/// with them and moves the hammer on by one.
pub proof fn lemma_empty_shot_at_self_keeps_turn(v: SessionView)
    requires
        v.wf(),
        v.is_active(),
        !v.chambers[v.shots_fired as int],
    ensures
        v.shot(v.turn_holder(), v.turn_holder()) matches Ok(n) && n.is_active()
            && n.turn_holder() == v.turn_holder() && n.shots_fired == v.shots_fired + 1,
{
}

/// An empty chamber fired by the current player at the opponent hands the
/// turn over and moves the hammer on by one.
pub proof fn lemma_empty_shot_at_opponent_passes_turn(v: SessionView)
    requires
        v.wf(),
        v.is_active(),
        !v.chambers[v.shots_fired as int],
    ensures
        v.shot(v.turn_holder(), v.opponent()) matches Ok(n) && n.is_active()
            && n.turn_holder() == v.opponent() && n.shots_fired == v.shots_fired + 1,
{
}

/// The loaded chamber ends the game whatever the target: the target loses
/// and the other player wins.
pub proof fn lemma_loaded_shot_ends_game(v: SessionView, target: Identity)
    requires
        v.wf(),
        v.is_active(),
        v.chambers[v.shots_fired as int],
        target == v.player_one || target == v.player_two,
    ensures
        v.shot(v.turn_holder(), target) matches Ok(n) && n.state == (State::Won {
            winner: if target == v.turn_holder() {
                v.opponent()
            } else {
                v.turn_holder()
            },
        }),
{
}

/// The shot that ends a game makes both stakes owed to the winner; once
/// released, nothing more is owed, and releasing again changes nothing.
pub proof fn lemma_payout_exactly_once(v: SessionView, shooter: Identity, target: Identity)
    requires
        v.wf(),
    ensures
        v.shot(shooter, target) matches Ok(n) ==> match n.state {
            State::Won { winner } => payout_due(n) == Some(
                Payout { recipient: winner, amount: PAYOUT_LAMPORTS },
            ),
            State::Active => payout_due(n) is None,
        },
        payout_due(released(v)) is None,
        released(released(v)) == released(v),
{
}

} // verus!
