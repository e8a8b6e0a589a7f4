use vstd::prelude::*;
use crate::battle::BattleStatus;
use crate::contract::{
    battle_of, create_spec, forge_blade_spec, join_battle_spec, melt_blade_spec, set_player_spec,
    stat_of, submit_spec, GameView,
};
use crate::player::{GameError, PlayerStat, BASE_ATTACK, BASE_DEFENSE, BASE_HEALTH};
use crate::resolve::{move_of, Move};

verus! {

/// One equipment operation: forging or melting a sword.
pub enum EquipStep {
    Forge { user: String, class: u32 },
    Melt { user: String, class: u32 },
}

/// The state after the equipment operations `steps`, in order; a refused
/// operation leaves the state as it was.
pub open spec fn run_equip_steps(s: GameView, steps: Seq<EquipStep>) -> GameView
    decreases steps.len(),
{
    if steps.len() == 0 {
        s
    } else {
        let next = match steps[0] {
            EquipStep::Forge { user, class } => forge_blade_spec(s, user, class).0,
            EquipStep::Melt { user, class } => melt_blade_spec(s, user, class).0,
        };
        run_equip_steps(next, steps.drop_first())
    }
}

/// After any sequence of forging and melting, every registered player holds
/// a sword exactly when a sword class is recorded for it.
pub proof fn lemma_equipment_flag_agrees(s: GameView, steps: Seq<EquipStep>)
    requires
        s.wf(),
    ensures
        run_equip_steps(s, steps).wf(),
        forall|k: Seq<char>| #[trigger]
            run_equip_steps(s, steps).players.contains_key(k) ==> {
                let p = run_equip_steps(s, steps).players[k];
                p.has_sword == (p.sword_class != 0)
            },
    decreases steps.len(),
{
    if steps.len() > 0 {
        let next = match steps[0] {
            EquipStep::Forge { user, class } => forge_blade_spec(s, user, class).0,
            EquipStep::Melt { user, class } => melt_blade_spec(s, user, class).0,
        };
        assert(next.wf());
        lemma_equipment_flag_agrees(next, steps.drop_first());
    }
}

/// Forging a sword and melting it right away brings health, attack and
/// defense back to 100, 10 and 10, whatever the class.
pub proof fn lemma_equip_then_unequip(s: GameView, user: String, class: u32)
    requires
        s.wf(),
    ensures
        ({
            let (t, r) = forge_blade_spec(s, user, class);
            let (u, r2) = melt_blade_spec(t, user, class);
            r is Ok ==> {
                &&& r2 is Ok
                &&& stat_of(u, user@).health == BASE_HEALTH
                &&& stat_of(u, user@).attack == BASE_ATTACK
                &&& stat_of(u, user@).defense == BASE_DEFENSE
                &&& !stat_of(u, user@).has_sword
            }
        }),
{
}

/// A player in a battle can neither forge nor melt a sword, nor create or
/// join a battle; each refusal leaves the state unchanged.
pub proof fn lemma_in_battle_blocks(s: GameView, user: String, class: u32, name: String, auto: bool)
    requires
        stat_of(s, user@).in_battle,
    ensures
        forge_blade_spec(s, user, class) == (s, Err::<(), GameError>(GameError::InBattle))
            || forge_blade_spec(s, user, class) == (s, Err::<(), GameError>(
            GameError::AlreadyEquipped,
        )),
        melt_blade_spec(s, user, class).0 == s,
        melt_blade_spec(s, user, class).1 is Err,
        create_spec(s, name, user, auto) == (s, Err::<(), GameError>(
            GameError::PlayerAlreadyInBattle,
        )),
        join_battle_spec(s, name, user).0 == s,
        join_battle_spec(s, name, user).1 is Err,
{
}

/// A battle just created is found under its name with its creator in seat
/// one: pending, or started when created against the contract itself.
pub proof fn lemma_create_then_get(s: GameView, name: String, user: String, auto: bool)
    ensures
        ({
            let (t, r) = create_spec(s, name, user, auto);
            r is Ok ==> {
                &&& battle_of(t, name).battle_status == if auto {
                    BattleStatus::Started
                } else {
                    BattleStatus::Pending
                }
                &&& battle_of(t, name).player_one == user
                &&& stat_of(t, user@).in_battle
            }
        }),
{
}

/// Joining a pending battle starts it with both seats filled and no moves;
/// any later join is refused and changes nothing.
pub proof fn lemma_join_pending(s: GameView, name: String, user: String, other: String)
    requires
        battle_of(s, name).battle_status == BattleStatus::Pending,
        !stat_of(s, user@).in_battle,
    ensures
        ({
            let (t, r) = join_battle_spec(s, name, user);
            let b = battle_of(t, name);
            &&& r is Ok
            &&& b.battle_status == BattleStatus::Started
            &&& b.player_one == battle_of(s, name).player_one
            &&& b.player_two == user
            &&& b.move_one == Move::NoMove
            &&& b.move_two == Move::NoMove
            &&& join_battle_spec(t, name, other) == (t, Err::<(), GameError>(
                GameError::BattleAlreadyStarted,
            ))
        }),
{
}

/// When both seats attack and seat one's attack reaches seat two's health,
/// the battle ends with seat one the winner and both players released.
pub proof fn lemma_attack_finishes(s: GameView, name: String, user: String)
    requires
        battle_of(s, name).battle_status == BattleStatus::Started,
        battle_of(s, name).player_one@ != battle_of(s, name).player_two@,
        ({
            let b = battle_of(s, name);
            ||| b.move_one == Move::Attack && b.move_two == Move::NoMove && user@ == b.player_two@
            ||| b.move_one == Move::NoMove && b.move_two == Move::Attack && user@ == b.player_one@
        }),
        stat_of(s, battle_of(s, name).player_one@).attack >= stat_of(
            s,
            battle_of(s, name).player_two@,
        ).health,
    ensures
        ({
            let b = battle_of(s, name);
            let (t, r) = submit_spec(s, user, 1, name);
            &&& r is Ok
            &&& battle_of(t, name).battle_status == BattleStatus::Ended
            &&& battle_of(t, name).winner == b.player_one
            &&& !stat_of(t, b.player_one@).in_battle
            &&& !stat_of(t, b.player_two@).in_battle
        }),
{
}

/// When both seats defend, each player's health rises by exactly two and
/// the battle goes on with both move slots cleared.
pub proof fn lemma_defend_heals(s: GameView, name: String, user: String)
    requires
        battle_of(s, name).battle_status == BattleStatus::Started,
        battle_of(s, name).player_one@ != battle_of(s, name).player_two@,
        ({
            let b = battle_of(s, name);
            ||| b.move_one == Move::Defend && b.move_two == Move::NoMove && user@ == b.player_two@
            ||| b.move_one == Move::NoMove && b.move_two == Move::Defend && user@ == b.player_one@
        }),
        stat_of(s, battle_of(s, name).player_one@).health + 2 <= u32::MAX,
        stat_of(s, battle_of(s, name).player_two@).health + 2 <= u32::MAX,
    ensures
        ({
            let b = battle_of(s, name);
            let (t, r) = submit_spec(s, user, 2, name);
            &&& r is Ok
            &&& stat_of(t, b.player_one@).health == stat_of(s, b.player_one@).health + 2
            &&& stat_of(t, b.player_two@).health == stat_of(s, b.player_two@).health + 2
            &&& battle_of(t, name).battle_status == BattleStatus::Started
            &&& battle_of(t, name).move_one == Move::NoMove
            &&& battle_of(t, name).move_two == Move::NoMove
        }),
{
}

/// A second move by the same player in one round, before the other seat has
/// moved, is refused and leaves the recorded move and the state unchanged.
pub proof fn lemma_second_move_refused(
    s: GameView,
    name: String,
    user: String,
    first: u64,
    second: u64,
)
    requires
        battle_of(s, name).move_one == Move::NoMove,
        battle_of(s, name).move_two == Move::NoMove,
        submit_spec(s, user, first, name).1 is Ok,
        move_of(second) is Some,
    ensures
        ({
            let t = submit_spec(s, user, first, name).0;
            let b = battle_of(t, name);
            &&& submit_spec(t, user, second, name) == (t, Err::<(), GameError>(
                GameError::MoveAlreadySubmitted,
            ))
            &&& (b.move_one == move_of(first).unwrap() || b.move_two == move_of(first).unwrap())
        }),
{
}

/// A record stored for a player is the record then read for that player.
pub proof fn lemma_set_then_get(s: GameView, user: String, p: PlayerStat)
    ensures
        stat_of(set_player_spec(s, user, p), user@) == p,
{
}

} // verus!
