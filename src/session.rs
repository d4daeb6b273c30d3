use vstd::prelude::*;
use vstd::bytes::spec_u64_from_le_bytes;
use vstd::bytes::u64_from_le_bytes;

use crate::errors::RoulleteErrors;
use crate::identity::Identity;

verus! {

/// Number of chambers in the cylinder.
pub const CHAMBERS: u64 = 6;

/// Lamports that each player puts into the session's custody on joining.
pub const STAKE_LAMPORTS: u64 = 10_000_000;

/// Lamports released to the winner: both stakes.
pub const PAYOUT_LAMPORTS: u64 = 20_000_000;

/// Whether a session is still being played, and who won once it is not.
#[derive(Clone, Copy, Debug, PartialEq, Eq)]
pub enum State {
    Active,
    Won { winner: Identity },
}

/// One game between two players.
///
/// `turn` is false while the first player is to act and true while the
/// second is. `trigger` counts the empty chambers fired so far, and so
/// indexes the chamber under the hammer. `paid` records that the stakes
/// were released to the winner.
pub struct Session {
    player_one: Identity,
    player_two: Identity,
    turn: bool,
    load: [bool; 6],
    trigger: u8,
    state: State,
    paid: bool,
}

/// A read-only report of a session.
#[derive(Clone, Copy, Debug)]
pub struct GameStamp {
    pub state: State,
    pub load: [bool; 6],
    pub player_one: Identity,
    pub player_two: Identity,
}

/// An instruction to move escrowed lamports to a player.
#[derive(Clone, Copy, Debug)]
pub struct Payout {
    pub recipient: Identity,
    pub amount: u64,
}

/// The abstract contents of a session.
pub struct SessionView {
    pub player_one: Identity,
    pub player_two: Identity,
    pub turn: bool,
    pub chambers: Seq<bool>,
    pub shots_fired: nat,
    pub state: State,
    pub paid: bool,
}

/// `c` is a cylinder of six chambers whose one loaded chamber is `k`.
pub open spec fn loaded_at(c: Seq<bool>, k: int) -> bool {
    &&& c.len() == 6
    &&& 0 <= k < 6
    &&& forall|i: int| 0 <= i < 6 ==> (c[i] <==> i == k)
}

/// The timestamp seen as an unsigned number, as a two's complement cast does.
pub open spec fn timestamp_bits(timestamp: i64) -> u64 {
    timestamp as u64
}

/// The seed: the entropy sample, read little-endian, minus the timestamp,
/// stopping at zero.
pub open spec fn seed_of(entropy: Seq<u8>, timestamp: i64) -> u64 {
    let e = spec_u64_from_le_bytes(entropy);
    let t = timestamp_bits(timestamp);
    if e >= t {
        (e - t) as u64
    } else {
        0
    }
}

/// The chamber that is loaded for the given entropy sample and timestamp.
pub open spec fn chamber_index(entropy: Seq<u8>, timestamp: i64) -> int {
    (seed_of(entropy, timestamp) % 6) as int
}

/// The cylinder with only chamber `k` loaded.
pub open spec fn cylinder(k: int) -> Seq<bool> {
    Seq::new(6, |i: int| i == k)
}

/// The session that a set of stored fields describes.
pub open spec fn stored_view(
    player_one: Identity,
    player_two: Identity,
    turn: bool,
    load: [bool; 6],
    trigger: u8,
    state: State,
    paid: bool,
) -> SessionView {
    SessionView {
        player_one,
        player_two,
        turn,
        chambers: load@,
        shots_fired: trigger as nat,
        state,
        paid,
    }
}

/// A session just started by two players.
pub open spec fn fresh_session(
    player_one: Identity,
    player_two: Identity,
    entropy: Seq<u8>,
    timestamp: i64,
) -> SessionView {
    SessionView {
        player_one,
        player_two,
        turn: false,
        chambers: cylinder(chamber_index(entropy, timestamp)),
        shots_fired: 0,
        state: State::Active,
        paid: false,
    }
}

/// What the session still owes the winner, if anything.
pub open spec fn payout_due(v: SessionView) -> Option<Payout> {
    match v.state {
        State::Won { winner } => if v.paid {
            None
        } else {
            Some(Payout { recipient: winner, amount: PAYOUT_LAMPORTS })
        },
        State::Active => None,
    }
}

/// The session once whatever was owed has been released.
pub open spec fn released(v: SessionView) -> SessionView {
    if payout_due(v) is Some {
        SessionView { paid: true, ..v }
    } else {
        v
    }
}

impl SessionView {
    /// The player whose turn it is.
    pub open spec fn turn_holder(self) -> Identity {
        if self.turn {
            self.player_two
        } else {
            self.player_one
        }
    }

    /// The player who waits.
    pub open spec fn opponent(self) -> Identity {
        if self.turn {
            self.player_one
        } else {
            self.player_two
        }
    }

    pub open spec fn is_active(self) -> bool {
        self.state is Active
    }

    /// One chamber is loaded; the players differ; only empty chambers
    /// lie behind the hammer; a won session stopped on the loaded chamber,
    /// and names one of the players; only a won session was paid out.
    pub open spec fn wf(self) -> bool {
        &&& exists|k: int| loaded_at(self.chambers, k)
        &&& self.player_one != self.player_two
        &&& self.shots_fired < 6
        &&& forall|i: int| 0 <= i < self.shots_fired ==> !self.chambers[i]
        &&& match self.state {
            State::Active => !self.paid,
            State::Won { winner } => {
                &&& self.chambers[self.shots_fired as int]
                &&& (winner == self.player_one || winner == self.player_two)
            },
        }
    }

    /// What a shot by `shooter` at `target` does: the session after it, or
    /// the reason it is refused.
    pub open spec fn shot(self, shooter: Identity, target: Identity) -> Result<
        SessionView,
        RoulleteErrors,
    > {
        if !self.is_active() {
            Err(RoulleteErrors::SessionAlreadyOver)
        } else if shooter != self.turn_holder() {
            Err(RoulleteErrors::NotPlayersTurn)
        } else if target != self.player_one && target != self.player_two {
            Err(RoulleteErrors::InvalidTarget)
        } else if self.chambers[self.shots_fired as int] {
            let winner = if target == shooter {
                self.opponent()
            } else {
                shooter
            };
            Ok(SessionView { state: State::Won { winner }, ..self })
        } else {
            Ok(
                SessionView {
                    turn: if target == shooter {
                        self.turn
                    } else {
                        !self.turn
                    },
                    shots_fired: self.shots_fired + 1,
                    ..self
                },
            )
        }
    }

    pub open spec fn stamp(self) -> GameStampView {
        GameStampView {
            state: self.state,
            chambers: self.chambers,
            player_one: self.player_one,
            player_two: self.player_two,
        }
    }
}

/// The abstract contents of a `GameStamp`.
pub struct GameStampView {
    pub state: State,
    pub chambers: Seq<bool>,
    pub player_one: Identity,
    pub player_two: Identity,
}

impl View for GameStamp {
    type V = GameStampView;

    open spec fn view(&self) -> GameStampView {
        GameStampView {
            state: self.state,
            chambers: self.load@,
            player_one: self.player_one,
            player_two: self.player_two,
        }
    }
}

impl View for Session {
    type V = SessionView;

    closed spec fn view(&self) -> SessionView {
        SessionView {
            player_one: self.player_one,
            player_two: self.player_two,
            turn: self.turn,
            chambers: self.load@,
            shots_fired: self.trigger as nat,
            state: self.state,
            paid: self.paid,
        }
    }
}

/// The seed that loads the cylinder: the entropy sample minus the timestamp.
fn derive_seed(most_recent: &[u8; 8], timestamp: i64) -> (r: u64)
    ensures
        r == seed_of(most_recent@, timestamp),
{
    let sample = u64_from_le_bytes(most_recent.as_slice());
    sample.saturating_sub(timestamp as u64)
}

impl Session {
    /// Starts a game between two distinct players, loading the chamber that
    /// the entropy sample and the timestamp select. The first player acts
    /// first.
    pub fn start_session(
        player_one: Identity,
        player_two: Identity,
        most_recent: &[u8; 8],
        timestamp: i64,
    ) -> (r: Result<Session, RoulleteErrors>)
        ensures
            player_one == player_two ==> r == Err::<Session, _>(RoulleteErrors::IdenticalPlayers),
            player_one != player_two ==> (r matches Ok(s) && s@ == fresh_session(
                player_one,
                player_two,
                most_recent@,
                timestamp,
            ) && s@.wf()),
    {
        if player_one.same(&player_two) {
            return Err(RoulleteErrors::IdenticalPlayers);
        }
        let seed = derive_seed(most_recent, timestamp);
        let index = (seed % CHAMBERS) as usize;
        let mut load = [false, false, false, false, false, false];
        load[index] = true;
        let s = Session {
            player_one,
            player_two,
            turn: false,
            load,
            trigger: 0,
            state: State::Active,
            paid: false,
        };
        proof {
            let k = chamber_index(most_recent@, timestamp);
            assert(s@.chambers =~= cylinder(k));
            assert(loaded_at(s@.chambers, k));
        }
        Ok(s)
    }

    /// Whose turn it is.
    pub fn current_player(&self) -> (r: Identity)
        ensures
            r == self@.turn_holder(),
    {
        if !self.turn {
            self.player_one
        } else {
            self.player_two
        }
    }

    /// Who waits for the current player.
    pub fn other_player(&self) -> (r: Identity)
        ensures
            r == self@.opponent(),
    {
        if self.turn {
            self.player_one
        } else {
            self.player_two
        }
    }

    pub fn is_active(&self) -> (r: bool)
        ensures
            r == self@.is_active(),
    {
        match self.state {
            State::Active => true,
            State::Won { .. } => false,
        }
    }

    /// Fires the chamber under the hammer at `target`, on behalf of `shooter`.
    ///
    /// A loaded chamber ends the game: the target loses. An empty one hands
    /// the turn to the opponent if the opponent was the target, and leaves
    /// it with the shooter otherwise. Returns the state after the shot; a
    /// refused shot changes nothing.
    pub fn shoot(&mut self, shooter: Identity, target: Identity) -> (r: Result<State, RoulleteErrors>)
        requires
            old(self)@.wf(),
        ensures
            final(self)@.wf(),
            match old(self)@.shot(shooter, target) {
                Ok(v) => r == Ok::<State, RoulleteErrors>(v.state) && final(self)@ == v,
                Err(e) => r == Err::<State, RoulleteErrors>(e) && final(self)@ == old(self)@,
            },
    {
        if !self.is_active() {
            return Err(RoulleteErrors::SessionAlreadyOver);
        }
        let current = self.current_player();
        if !shooter.same(&current) {
            return Err(RoulleteErrors::NotPlayersTurn);
        }
        if !target.same(&self.player_one) && !target.same(&self.player_two) {
            return Err(RoulleteErrors::InvalidTarget);
        }
        let ghost k = choose|k: int| loaded_at(self@.chambers, k);
        proof {
            if k < self.trigger {
                assert(!self@.chambers[k]);
            }
        }
        if self.load[self.trigger as usize] {
            let winner = if target.same(&shooter) {
                self.other_player()
            } else {
                shooter
            };
            self.state = State::Won { winner };
        } else {
            if !target.same(&shooter) {
                self.turn = !self.turn;
            }
            self.trigger = self.trigger + 1;
        }
        assert(loaded_at(self@.chambers, k));
        Ok(self.state)
    }

    /// Releases both stakes to the winner, once. Returns the instruction the
    /// first time it is called on a won session, and nothing after that or
    /// while the game goes on.
    pub fn release_payout(&mut self) -> (r: Option<Payout>)
        requires
            old(self)@.wf(),
        ensures
            final(self)@.wf(),
            r == payout_due(old(self)@),
            final(self)@ == released(old(self)@),
    {
        match self.state {
            State::Active => None,
            State::Won { winner } => {
                if self.paid {
                    None
                } else {
                    self.paid = true;
                    Some(Payout { recipient: winner, amount: PAYOUT_LAMPORTS })
                }
            },
        }
    }

    /// A report of the state, the cylinder and the players.
    pub fn get_state(&self) -> (r: GameStamp)
        ensures
            r@ == self@.stamp(),
    {
        GameStamp {
            state: self.state,
            load: self.load,
            player_one: self.player_one,
            player_two: self.player_two,
        }
    }

    /// Rebuilds a session from its stored fields, or nothing if they do not
    /// describe a well-formed session.
    pub fn restore(
        player_one: Identity,
        player_two: Identity,
        turn: bool,
        load: [bool; 6],
        trigger: u8,
        state: State,
        paid: bool,
    ) -> (r: Option<Session>)
        ensures
            r is Some <==> stored_view(player_one, player_two, turn, load, trigger, state, paid).wf(),
            r matches Some(s) ==> s@ == stored_view(
                player_one,
                player_two,
                turn,
                load,
                trigger,
                state,
                paid,
            ),
    {
        let ghost v = stored_view(player_one, player_two, turn, load, trigger, state, paid);
        if player_one.same(&player_two) || trigger >= 6 {
            return None;
        }
        let mut found: Option<usize> = None;
        let mut i: usize = 0;
        while i < 6
            invariant
                0 <= i <= 6,
                found is None ==> forall|j: int| 0 <= j < i ==> !load[j],
                found matches Some(k) ==> k < i && load[k as int] && forall|j: int|
                    0 <= j < i && j != k ==> !load[j],
            decreases 6 - i,
        {
            if load[i] {
                if found.is_some() {
                    proof {
                        let k = found->0 as int;
                        assert forall|m: int| !loaded_at(load@, m) by {
                            if loaded_at(load@, m) {
                                assert(load@[k] && load@[i as int]);
                            }
                        }
                    }
                    return None;
                }
                found = Some(i);
            }
            i = i + 1;
        }
        let k = match found {
            Some(k) => k,
            None => {
                proof {
                    assert forall|m: int| !loaded_at(load@, m) by {
                        if loaded_at(load@, m) {
                            assert(load@[m]);
                        }
                    }
                }
                return None;
            },
        };
        assert(loaded_at(load@, k as int));
        if (k as u8) < trigger {
            assert(v.chambers[k as int] && (k as int) < v.shots_fired);
            return None;
        }
        let valid = match state {
            State::Active => !paid,
            State::Won { winner } => (k as u8) == trigger && (winner.same(&player_one) || winner.same(
                &player_two,
            )),
        };
        if !valid {
            return None;
        }
        assert(loaded_at(v.chambers, k as int));
        Some(Session { player_one, player_two, turn, load, trigger, state, paid })
    }

    pub fn player_one(&self) -> (r: Identity)
        ensures
            r == self@.player_one,
    {
        self.player_one
    }

    pub fn player_two(&self) -> (r: Identity)
        ensures
            r == self@.player_two,
    {
        self.player_two
    }

    /// False while the first player is to act, true while the second is.
    pub fn turn(&self) -> (r: bool)
        ensures
            r == self@.turn,
    {
        self.turn
    }

    pub fn load(&self) -> (r: [bool; 6])
        ensures
            r@ == self@.chambers,
    {
        self.load
    }

    pub fn shots_fired(&self) -> (r: u8)
        ensures
            r == self@.shots_fired,
    {
        self.trigger
    }

    pub fn state(&self) -> (r: State)
        ensures
            r == self@.state,
    {
        self.state
    }

    /// Whether the stakes were released to the winner.
    pub fn is_paid(&self) -> (r: bool)
        ensures
            r == self@.paid,
    {
        self.paid
    }
}

} // verus!
