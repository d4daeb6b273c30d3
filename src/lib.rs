//! A two-player revolver game whose session is a verified state machine.
use vstd::prelude::*;

pub mod errors;
pub mod identity;
pub mod laws;
pub mod session;

pub use errors::RoulleteErrors;
pub use identity::Identity;
pub use session::{GameStamp, Payout, Session, SessionView, State};

use session::{fresh_session, payout_due, released};

verus! {

/// Offset of the entropy sample in the slot-hashes record. The record opens
/// with an 8-byte entry count, then the newest entry's 8-byte slot number
/// and 32-byte hash; the sample's eight bytes straddle those two fields.
pub const SAMPLE_OFFSET: usize = 12;

/// The 8-byte entropy sample taken from a slot-hashes record.
pub fn slot_hash_sample(data: &[u8]) -> (r: [u8; 8])
    requires
        data@.len() >= SAMPLE_OFFSET + 8,
    ensures
        r@ == data@.subrange(SAMPLE_OFFSET as int, SAMPLE_OFFSET + 8),
{
    let r = [
        data[SAMPLE_OFFSET],
        data[SAMPLE_OFFSET + 1],
        data[SAMPLE_OFFSET + 2],
        data[SAMPLE_OFFSET + 3],
        data[SAMPLE_OFFSET + 4],
        data[SAMPLE_OFFSET + 5],
        data[SAMPLE_OFFSET + 6],
        data[SAMPLE_OFFSET + 7],
    ];
    assert(r@ =~= data@.subrange(SAMPLE_OFFSET as int, SAMPLE_OFFSET + 8));
    r
}

/// Seats two players in an empty session record and loads the cylinder from
/// the slot-hashes record and the timestamp. Each player then owes
/// `STAKE_LAMPORTS` to the session's custody.
///
/// A record that already holds a session is refused and left as it is.
pub fn join_session(
    session: &mut Option<Session>,
    player_one: Identity,
    player_two: Identity,
    slot_hashes: &[u8],
    timestamp: i64,
) -> (r: Result<(), RoulleteErrors>)
    requires
        slot_hashes@.len() >= SAMPLE_OFFSET + 8,
    ensures
        (*old(session)) is Some ==> r == Err::<(), _>(RoulleteErrors::SessionAlreadyStarted)
            && *final(session) == *old(session),
        (*old(session)) is None && player_one == player_two ==> r == Err::<(), _>(
            RoulleteErrors::IdenticalPlayers,
        ) && *final(session) == *old(session),
        (*old(session)) is None && player_one != player_two ==> r is Ok,
        (*old(session)) is None && player_one != player_two ==> (*final(session) matches Some(s)
            && s@ == fresh_session(
            player_one,
            player_two,
            slot_hashes@.subrange(SAMPLE_OFFSET as int, SAMPLE_OFFSET + 8),
            timestamp,
        ) && s@.wf()),
{
    if session.is_some() {
        return Err(RoulleteErrors::SessionAlreadyStarted);
    }
    let sample = slot_hash_sample(slot_hashes);
    let s = Session::start_session(player_one, player_two, &sample, timestamp)?;
    *session = Some(s);
    Ok(())
}

/// Takes a shot and, when it ends the game, releases the stakes to the
/// winner. Returns the payout to make, if any; a refused shot changes
/// nothing and pays nothing.
pub fn shoot(session: &mut Session, shooter: Identity, target: Identity) -> (r: Result<
    Option<Payout>,
    RoulleteErrors,
>)
    requires
        old(session)@.wf(),
    ensures
        final(session)@.wf(),
        match old(session)@.shot(shooter, target) {
            Ok(v) => r == Ok::<Option<Payout>, RoulleteErrors>(payout_due(v)) && final(session)@
                == released(v),
            Err(e) => r == Err::<Option<Payout>, RoulleteErrors>(e) && final(session)@ == old(
                session,
            )@,
        },
{
    match session.shoot(shooter, target)? {
        State::Active => Ok(None),
        State::Won { .. } => match session.release_payout() {
            Some(p) => Ok(Some(p)),
            None => Err(RoulleteErrors::InternalGameError),
        },
    }
}

/// A report of the session.
pub fn get_game_stamp(session: &Session) -> (r: GameStamp)
    ensures
        r@ == session@.stamp(),
{
    session.get_state()
}

} // verus!
