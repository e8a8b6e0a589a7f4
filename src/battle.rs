use vstd::prelude::*;
use crate::player::GameError;
use crate::resolve::{move_of, Move};

verus! {

/// Where a battle stands in its life.
#[derive(Clone, Copy, PartialEq, Eq, Debug, Structural)]
pub enum BattleStatus {
    /// Waiting for a second player.
    Pending,
    /// Both seats are filled and moves are taken.
    Started,
    /// A winner is fixed; the battle no longer changes.
    Ended,
}

/// Which of the two seats.
#[derive(Clone, Copy, PartialEq, Eq, Debug, Structural)]
pub enum Seat {
    One,
    Two,
}

/// A named battle between two seats.
#[derive(Clone, Debug, PartialEq, Eq)]
pub struct Battle {
    pub battle_status: BattleStatus,
    pub name: String,
    pub player_one: String,
    pub player_two: String,
    pub move_one: Move,
    pub move_two: Move,
    /// The winner once the battle has ended; until then the creating
    /// contract's own address.
    pub winner: String,
}

/// The seat that `user` holds in `b`, seat one first.
pub open spec fn seat_of(b: Battle, user: Seq<char>) -> Option<Seat> {
    if b.player_one@ == user {
        Some(Seat::One)
    } else if b.player_two@ == user {
        Some(Seat::Two)
    } else {
        None
    }
}

/// `b` with move `m` recorded for seat `s`.
pub open spec fn with_move(b: Battle, s: Seat, m: Move) -> Battle {
    match s {
        Seat::One => Battle { move_one: m, ..b },
        Seat::Two => Battle { move_two: m, ..b },
    }
}

/// The outcome of `user` choosing `choice` in `b`: the battle with the move
/// recorded, or why the move is refused.
pub open spec fn record_spec(b: Battle, user: Seq<char>, choice: u64) -> Result<Battle, GameError> {
    match move_of(choice) {
        None => Err(GameError::InvalidChoice),
        Some(m) => if b.battle_status != BattleStatus::Started {
            Err(GameError::BattleNotStarted)
        } else {
            match seat_of(b, user) {
                None => Err(GameError::NotAParticipant),
                Some(s) => {
                    let current = match s {
                        Seat::One => b.move_one,
                        Seat::Two => b.move_two,
                    };
                    if current != Move::NoMove {
                        Err(GameError::MoveAlreadySubmitted)
                    } else {
                        Ok(with_move(b, s, m))
                    }
                },
            }
        },
    }
}

impl Battle {
    /// Whether both seats have moved this round.
    pub open spec fn both_moved(&self) -> bool {
        self.move_one != Move::NoMove && self.move_two != Move::NoMove
    }

    /// A battle with the given seats and status and no moves yet.
    pub fn open(
        name: String,
        status: BattleStatus,
        one: String,
        two: String,
        winner: String,
    ) -> (b: Battle)
        ensures
            b == (Battle {
                battle_status: status,
                name,
                player_one: one,
                player_two: two,
                move_one: Move::NoMove,
                move_two: Move::NoMove,
                winner,
            }),
    {
        Battle {
            battle_status: status,
            name,
            player_one: one,
            player_two: two,
            move_one: Move::NoMove,
            move_two: Move::NoMove,
            winner,
        }
    }

    /// A field-by-field copy.
    pub fn copied(&self) -> (r: Battle)
        ensures
            r == *self,
    {
        Battle {
            battle_status: self.battle_status,
            name: self.name.clone(),
            player_one: self.player_one.clone(),
            player_two: self.player_two.clone(),
            move_one: self.move_one,
            move_two: self.move_two,
            winner: self.winner.clone(),
        }
    }

    /// The seat that `user` holds.
    pub fn seat(&self, user: &String) -> (r: Option<Seat>)
        ensures
            r == seat_of(*self, user@),
    {
        if self.player_one == *user {
            Some(Seat::One)
        } else if self.player_two == *user {
            Some(Seat::Two)
        } else {
            None
        }
    }

    /// Records the move of `user` for this round, refusing it where the rules do.
    pub fn record_move(&mut self, user: &String, choice: u64) -> (r: Result<(), GameError>)
        ensures
            match record_spec(*old(self), user@, choice) {
                Ok(b) => r is Ok && *final(self) == b,
                Err(e) => r == Err::<(), GameError>(e) && *final(self) == *old(self),
            },
    {
        let m = match Move::from_choice(choice) {
            None => return Err(GameError::InvalidChoice),
            Some(m) => m,
        };
        if self.battle_status != BattleStatus::Started {
            return Err(GameError::BattleNotStarted);
        }
        match self.seat(user) {
            None => Err(GameError::NotAParticipant),
            Some(Seat::One) => {
                if self.move_one != Move::NoMove {
                    return Err(GameError::MoveAlreadySubmitted);
                }
                self.move_one = m;
                Ok(())
            },
            Some(Seat::Two) => {
                if self.move_two != Move::NoMove {
                    return Err(GameError::MoveAlreadySubmitted);
                }
                self.move_two = m;
                Ok(())
            },
        }
    }
}

} // verus!
