use vstd::prelude::*;

verus! {

/// Health that each fighter regains when both defend.
pub const HEAL: u32 = 2;

/// The move a seat has made in the current round.
#[derive(Clone, Copy, PartialEq, Eq, Debug, Structural)]
pub enum Move {
    NoMove,
    Attack,
    Defend,
}

/// The move that a choice number stands for: 1 attacks, 2 defends.
pub open spec fn move_of(choice: u64) -> Option<Move> {
    if choice == 1 {
        Some(Move::Attack)
    } else if choice == 2 {
        Some(Move::Defend)
    } else {
        None
    }
}

impl Move {
    pub fn from_choice(choice: u64) -> (r: Option<Move>)
        ensures
            r == move_of(choice),
    {
        if choice == 1 {
            Some(Move::Attack)
        } else if choice == 2 {
            Some(Move::Defend)
        } else {
            None
        }
    }
}

/// The attributes of one combatant that a round reads.
#[derive(Clone, Copy, PartialEq, Eq, Debug, Structural)]
pub struct Fighter {
    pub health: u32,
    pub attack: u32,
    pub defense: u32,
}

/// How a round ends: one seat wins, or the battle goes on with new health
/// for each seat.
#[derive(Clone, Copy, PartialEq, Eq, Debug, Structural)]
pub enum RoundResult {
    SeatOneWins,
    SeatTwoWins,
    Continue { health_one: u32, health_two: u32 },
}

/// Health and defense taken together: what an attack on a defender must exceed.
pub open spec fn phad(f: Fighter) -> int {
    f.health + f.defense
}

/// Health of a defender after a blow of strength `hit` that does not fell it:
/// a defense above the blow absorbs it whole.
pub open spec fn absorb(target: Fighter, hit: u32) -> u32 {
    if target.defense > hit {
        target.health
    } else {
        (phad(target) - hit) as u32
    }
}

/// `h` raised by the healing amount, held at `u32::MAX`.
pub open spec fn healed(h: u32) -> u32 {
    if h + HEAL > u32::MAX {
        u32::MAX
    } else {
        (h + HEAL) as u32
    }
}

/// The outcome of one round in which seat one makes `m1` and seat two `m2`.
pub open spec fn round_outcome(one: Fighter, m1: Move, two: Fighter, m2: Move) -> RoundResult {
    match (m1, m2) {
        (Move::Attack, Move::Attack) => {
            if one.attack >= two.health {
                RoundResult::SeatOneWins
            } else if two.attack >= one.health {
                RoundResult::SeatTwoWins
            } else {
                RoundResult::Continue {
                    health_one: (one.health - two.attack) as u32,
                    health_two: (two.health - one.attack) as u32,
                }
            }
        },
        (Move::Attack, Move::Defend) => {
            if one.attack >= phad(two) {
                RoundResult::SeatOneWins
            } else {
                RoundResult::Continue { health_one: one.health, health_two: absorb(two, one.attack) }
            }
        },
        (Move::Defend, Move::Attack) => {
            if two.attack >= phad(one) {
                RoundResult::SeatTwoWins
            } else {
                RoundResult::Continue { health_one: absorb(one, two.attack), health_two: two.health }
            }
        },
        (Move::Defend, Move::Defend) => RoundResult::Continue {
            health_one: healed(one.health),
            health_two: healed(two.health),
        },
        _ => RoundResult::Continue { health_one: one.health, health_two: two.health },
    }
}

fn absorb_exec(target: Fighter, hit: u32) -> (r: u32)
    requires
        (hit as int) < phad(target),
    ensures
        r == absorb(target, hit),
{
    if target.defense > hit {
        target.health
    } else {
        (target.health as u64 + target.defense as u64 - hit as u64) as u32
    }
}

fn heal(h: u32) -> (r: u32)
    ensures
        r == healed(h),
{
    h.saturating_add(HEAL)
}

/// Resolves one round of simultaneous moves.
pub fn resolve_round(one: Fighter, m1: Move, two: Fighter, m2: Move) -> (r: RoundResult)
    ensures
        r == round_outcome(one, m1, two, m2),
{
    match (m1, m2) {
        (Move::Attack, Move::Attack) => {
            if one.attack >= two.health {
                RoundResult::SeatOneWins
            } else if two.attack >= one.health {
                RoundResult::SeatTwoWins
            } else {
                RoundResult::Continue {
                    health_one: one.health - two.attack,
                    health_two: two.health - one.attack,
                }
            }
        },
        (Move::Attack, Move::Defend) => {
            if one.attack as u64 >= two.health as u64 + two.defense as u64 {
                RoundResult::SeatOneWins
            } else {
                RoundResult::Continue {
                    health_one: one.health,
                    health_two: absorb_exec(two, one.attack),
                }
            }
        },
        (Move::Defend, Move::Attack) => {
            if two.attack as u64 >= one.health as u64 + one.defense as u64 {
                RoundResult::SeatTwoWins
            } else {
                RoundResult::Continue {
                    health_one: absorb_exec(one, two.attack),
                    health_two: two.health,
                }
            }
        },
        (Move::Defend, Move::Defend) => RoundResult::Continue {
            health_one: heal(one.health),
            health_two: heal(two.health),
        },
        _ => RoundResult::Continue { health_one: one.health, health_two: two.health },
    }
}

} // verus!
