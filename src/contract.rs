use vstd::prelude::*;
use crate::battle::{record_spec, Battle, BattleStatus};
use crate::player::{
    class_of, equip_spec, saturate, unequip_spec, GameError, PlayerStat, BASE_HEALTH,
};
use crate::resolve::{resolve_round, round_outcome, Fighter, Move, RoundResult};
use crate::sword::{capped_sum, write_balance, SwordContract};
use crate::table::Table;

verus! {

/// The whole state of the game, as a model.
pub struct GameView {
    /// The contract's own address: the sentinel of an unfilled seat and the
    /// automated opponent.
    pub address: String,
    pub players: Map<Seq<char>, PlayerStat>,
    /// Registered addresses in order of registration.
    pub player_list: Seq<String>,
    pub battles: Map<Seq<char>, Battle>,
    /// Names of created battles in order of creation.
    pub battle_list: Seq<String>,
    /// Quantity held for each (owner, sword class).
    pub balances: Map<(Seq<char>, u32), int>,
}

impl GameView {
    /// Every player record keeps its equipment flag and class in agreement.
    pub open spec fn wf(self) -> bool {
        forall|k: Seq<char>| #[trigger] self.players.contains_key(k) ==> self.players[k].consistent()
    }
}

/// The record read for `user`: the stored one, or the all-zero record.
pub open spec fn stat_of(s: GameView, user: Seq<char>) -> PlayerStat {
    if s.players.contains_key(user) {
        s.players[user]
    } else {
        PlayerStat::spec_unregistered(s.address)
    }
}

/// The battle read for `name`: the stored one, or a pending battle whose two
/// seats hold the contract's address.
pub open spec fn battle_of(s: GameView, name: String) -> Battle {
    if s.battles.contains_key(name@) {
        s.battles[name@]
    } else {
        Battle {
            battle_status: BattleStatus::Pending,
            name,
            player_one: s.address,
            player_two: s.address,
            move_one: Move::NoMove,
            move_two: Move::NoMove,
            winner: s.address,
        }
    }
}

pub open spec fn fighter_of(p: PlayerStat) -> Fighter {
    Fighter { health: p.health, attack: p.attack, defense: p.defense }
}

/// A player leaving an ended battle: released, with health back at the baseline.
pub open spec fn released(p: PlayerStat) -> PlayerStat {
    PlayerStat { health: BASE_HEALTH, in_battle: false, ..p }
}

/// The state after `p` is stored as the record of `user`.
pub open spec fn set_player_spec(s: GameView, user: String, p: PlayerStat) -> GameView {
    GameView { players: s.players.insert(user@, p), ..s }
}

pub open spec fn add_player_spec(s: GameView, user: String) -> (GameView, Result<(), GameError>) {
    if s.players.contains_key(user@) {
        (s, Err(GameError::AlreadyRegistered))
    } else {
        let p = PlayerStat {
            player_address: user,
            sword_class: 0,
            health: 100,
            attack: 10,
            defense: 10,
            in_battle: false,
            has_sword: false,
        };
        (
            GameView {
                players: s.players.insert(user@, p),
                player_list: s.player_list.push(user),
                ..s
            },
            Ok(()),
        )
    }
}

pub open spec fn forge_blade_spec(s: GameView, to: String, class: u32) -> (
    GameView,
    Result<(), GameError>,
) {
    match equip_spec(stat_of(s, to@), class) {
        Err(e) => (s, Err(e)),
        Ok(p) => (
            GameView {
                players: s.players.insert(to@, p),
                balances: s.balances.insert((to@, class), capped_sum(s.balances[(to@, class)], 1)),
                ..s
            },
            Ok(()),
        ),
    }
}

pub open spec fn melt_blade_spec(s: GameView, from: String, class: u32) -> (
    GameView,
    Result<(), GameError>,
) {
    match unequip_spec(stat_of(s, from@)) {
        Err(e) => (s, Err(e)),
        Ok(p) => (
            GameView {
                players: s.players.insert(from@, p),
                balances: if class_of(class) is Some {
                    s.balances.insert((from@, class), 0)
                } else {
                    s.balances
                },
                ..s
            },
            Ok(()),
        ),
    }
}

/// Opening battle `name` for `user`: pending for an opponent, or started at
/// once against the contract itself when `auto`.
pub open spec fn create_spec(s: GameView, name: String, user: String, auto: bool) -> (
    GameView,
    Result<(), GameError>,
) {
    let p = stat_of(s, user@);
    if p.in_battle {
        (s, Err(GameError::PlayerAlreadyInBattle))
    } else if s.battles.contains_key(name@) && s.battles[name@].battle_status
        != BattleStatus::Ended {
        (s, Err(GameError::BattleNameTaken))
    } else {
        let b = Battle {
            battle_status: if auto {
                BattleStatus::Started
            } else {
                BattleStatus::Pending
            },
            name,
            player_one: user,
            player_two: s.address,
            move_one: Move::NoMove,
            move_two: Move::NoMove,
            winner: s.address,
        };
        (
            GameView {
                players: s.players.insert(user@, PlayerStat { in_battle: true, ..p }),
                battles: s.battles.insert(name@, b),
                battle_list: s.battle_list.push(name),
                ..s
            },
            Ok(()),
        )
    }
}

pub open spec fn join_battle_spec(s: GameView, name: String, user: String) -> (
    GameView,
    Result<(), GameError>,
) {
    let b = battle_of(s, name);
    let p = stat_of(s, user@);
    if b.battle_status != BattleStatus::Pending {
        (s, Err(GameError::BattleAlreadyStarted))
    } else if p.in_battle {
        (s, Err(GameError::PlayerAlreadyInBattle))
    } else {
        let joined = Battle {
            battle_status: BattleStatus::Started,
            player_two: user,
            move_one: Move::NoMove,
            move_two: Move::NoMove,
            ..b
        };
        (
            GameView {
                players: s.players.insert(user@, PlayerStat { in_battle: true, ..p }),
                battles: s.battles.insert(name@, joined),
                ..s
            },
            Ok(()),
        )
    }
}

pub open spec fn challenge_bot_spec(s: GameView, user: String, name: String) -> (
    GameView,
    Result<(), GameError>,
) {
    let b = battle_of(s, name);
    if b.battle_status != BattleStatus::Pending {
        (s, Err(GameError::BattleAlreadyStarted))
    } else {
        let opened = Battle {
            battle_status: BattleStatus::Started,
            player_one: user,
            player_two: s.address,
            move_one: Move::NoMove,
            move_two: Move::NoMove,
            ..b
        };
        (GameView { battles: s.battles.insert(name@, opened), ..s }, Ok(()))
    }
}

/// The state after the round of `b`, whose two moves are in, is resolved.
pub open spec fn settle_spec(s: GameView, name: String, b: Battle) -> GameView {
    let one = stat_of(s, b.player_one@);
    let two = stat_of(s, b.player_two@);
    let cleared = Battle { move_one: Move::NoMove, move_two: Move::NoMove, ..b };
    let ended = |w: String|
        GameView {
            players: s.players.insert(b.player_one@, released(one)).insert(
                b.player_two@,
                released(two),
            ),
            battles: s.battles.insert(
                name@,
                Battle { battle_status: BattleStatus::Ended, winner: w, ..cleared },
            ),
            ..s
        };
    match round_outcome(fighter_of(one), b.move_one, fighter_of(two), b.move_two) {
        RoundResult::SeatOneWins => ended(b.player_one),
        RoundResult::SeatTwoWins => ended(b.player_two),
        RoundResult::Continue { health_one, health_two } => GameView {
            players: s.players.insert(b.player_one@, PlayerStat { health: health_one, ..one }).insert(
                b.player_two@,
                PlayerStat { health: health_two, ..two },
            ),
            battles: s.battles.insert(name@, cleared),
            ..s
        },
    }
}

pub open spec fn submit_spec(s: GameView, user: String, choice: u64, name: String) -> (
    GameView,
    Result<(), GameError>,
) {
    match record_spec(battle_of(s, name), user@, choice) {
        Err(e) => (s, Err(e)),
        Ok(b) => if b.both_moved() {
            (settle_spec(s, name, b), Ok(()))
        } else {
            (GameView { battles: s.battles.insert(name@, b), ..s }, Ok(()))
        },
    }
}

/// The game: player registry, battles and the sword ledger.
pub struct BattleContract {
    address: String,
    players: Table<PlayerStat>,
    player_list: Vec<String>,
    battles: Table<Battle>,
    battle_list: Vec<String>,
    swords: SwordContract,
}

impl View for BattleContract {
    type V = GameView;

    closed spec fn view(&self) -> GameView {
        GameView {
            address: self.address,
            players: self.players@,
            player_list: self.player_list@,
            battles: self.battles@,
            battle_list: self.battle_list@,
            balances: Map::total(|k: (Seq<char>, u32)| self.swords.balance(k.0, k.1)),
        }
    }
}

fn copy_names(v: &Vec<String>) -> (r: Vec<String>)
    ensures
        r@ == v@,
{
    let mut r: Vec<String> = Vec::new();
    let mut i: usize = 0;
    while i < v.len()
        invariant
            i <= v@.len(),
            r@ == v@.subrange(0, i as int),
        decreases v@.len() - i,
    {
        r.push(v[i].clone());
        i += 1;
    }
    assert(r@ =~= v@);
    r
}

fn fighter(p: &PlayerStat) -> (f: Fighter)
    ensures
        f == fighter_of(*p),
{
    Fighter { health: p.health, attack: p.attack, defense: p.defense }
}

impl BattleContract {
    pub closed spec fn wf(&self) -> bool {
        &&& self.players.wf()
        &&& self.battles.wf()
        &&& self.swords.wf()
        &&& self@.wf()
    }

    /// A game with no players and no battles, run by the contract at `address`.
    pub fn new(address: String) -> (c: BattleContract)
        ensures
            c.wf(),
            c@.address == address,
            c@.players == Map::<Seq<char>, PlayerStat>::empty(),
            c@.battles == Map::<Seq<char>, Battle>::empty(),
            c@.player_list == Seq::<String>::empty(),
            c@.battle_list == Seq::<String>::empty(),
            forall|k: (Seq<char>, u32)| c@.balances[k] == 0,
    {
        BattleContract {
            address,
            players: Table::new(),
            player_list: Vec::new(),
            battles: Table::new(),
            battle_list: Vec::new(),
            swords: SwordContract::new(),
        }
    }

    fn stat(&self, user: &String) -> (r: PlayerStat)
        requires
            self.wf(),
        ensures
            r == stat_of(self@, user@),
    {
        match self.players.get(user) {
            Some(p) => p.copied(),
            None => PlayerStat::unregistered(self.address.clone()),
        }
    }

    fn battle(&self, name: &String) -> (r: Battle)
        requires
            self.wf(),
        ensures
            r == battle_of(self@, *name),
    {
        match self.battles.get(name) {
            Some(b) => b.copied(),
            None => Battle::open(
                name.clone(),
                BattleStatus::Pending,
                self.address.clone(),
                self.address.clone(),
                self.address.clone(),
            ),
        }
    }

    fn store_player(&mut self, user: String, p: PlayerStat)
        requires
            old(self).wf(),
            p.consistent(),
        ensures
            final(self).wf(),
            final(self)@ == (GameView { players: old(self)@.players.insert(user@, p), ..old(self)@ }),
    {
        self.players.insert(user, p);
        assert(self@ =~= GameView { players: old(self)@.players.insert(user@, p), ..old(self)@ });
    }

    fn store_battle(&mut self, name: String, b: Battle)
        requires
            old(self).wf(),
        ensures
            final(self).wf(),
            final(self)@ == (GameView { battles: old(self)@.battles.insert(name@, b), ..old(self)@ }),
    {
        self.battles.insert(name, b);
        assert(self@ =~= GameView { battles: old(self)@.battles.insert(name@, b), ..old(self)@ });
    }

    /// Resolves the round of battle `name`, whose record `b` holds both moves.
    fn await_battle_results(&mut self, name: String, b: Battle)
        requires
            old(self).wf(),
        ensures
            final(self).wf(),
            final(self)@ == settle_spec(old(self)@, name, b),
    {
        let one = self.stat(&b.player_one);
        let two = self.stat(&b.player_two);
        let outcome = resolve_round(fighter(&one), b.move_one, fighter(&two), b.move_two);
        let mut cleared = b.copied();
        cleared.move_one = Move::NoMove;
        cleared.move_two = Move::NoMove;
        match outcome {
            RoundResult::SeatOneWins => {
                let winner = b.player_one.clone();
                self.end_battle(name, cleared, winner, one, two);
            },
            RoundResult::SeatTwoWins => {
                let winner = b.player_two.clone();
                self.end_battle(name, cleared, winner, one, two);
            },
            RoundResult::Continue { health_one, health_two } => {
                let mut one = one;
                let mut two = two;
                one.health = health_one;
                two.health = health_two;
                self.store_player(b.player_one.clone(), one);
                self.store_player(b.player_two.clone(), two);
                self.store_battle(name, cleared);
            },
        }
    }

    /// Ends battle `name` with `winner` and releases both seats.
    fn end_battle(
        &mut self,
        name: String,
        b: Battle,
        winner: String,
        one: PlayerStat,
        two: PlayerStat,
    )
        requires
            old(self).wf(),
            one.consistent(),
            two.consistent(),
        ensures
            final(self).wf(),
            final(self)@ == (GameView {
                players: old(self)@.players.insert(b.player_one@, released(one)).insert(
                    b.player_two@,
                    released(two),
                ),
                battles: old(self)@.battles.insert(
                    name@,
                    Battle { battle_status: BattleStatus::Ended, winner, ..b },
                ),
                ..old(self)@
            }),
    {
        let mut one = one;
        let mut two = two;
        one.health = BASE_HEALTH;
        one.in_battle = false;
        two.health = BASE_HEALTH;
        two.in_battle = false;
        let mut ended = b;
        ended.battle_status = BattleStatus::Ended;
        ended.winner = winner;
        let seat_one = ended.player_one.clone();
        let seat_two = ended.player_two.clone();
        self.store_player(seat_one, one);
        self.store_player(seat_two, two);
        self.store_battle(name, ended);
    }

    /// Takes the move `choice` (1 attack, 2 defend) of `user` in battle
    /// `battle_name`; the second move of a round resolves it at once.
    pub fn attack_or_defend_choice(&mut self, user: String, choice: u64, battle_name: String) -> (r:
        Result<(), GameError>)
        requires
            old(self).wf(),
        ensures
            final(self).wf(),
            (final(self)@, r) == submit_spec(old(self)@, user, choice, battle_name),
    {
        let mut b = self.battle(&battle_name);
        match b.record_move(&user, choice) {
            Err(e) => {
                return Err(e);
            },
            Ok(()) => {},
        }
        if b.move_one != Move::NoMove && b.move_two != Move::NoMove {
            self.await_battle_results(battle_name, b);
        } else {
            self.store_battle(battle_name, b);
        }
        Ok(())
    }

    /// Registers `user` with the baseline attributes; an address registers once.
    pub fn add_player(&mut self, user: String) -> (r: Result<(), GameError>)
        requires
            old(self).wf(),
        ensures
            final(self).wf(),
            (final(self)@, r) == add_player_spec(old(self)@, user),
    {
        if self.players.contains(&user) {
            return Err(GameError::AlreadyRegistered);
        }
        let p = PlayerStat::new(user.clone());
        self.store_player(user.clone(), p);
        let ghost mid = self@;
        self.player_list.push(user);
        assert(self@ =~= GameView { player_list: mid.player_list.push(user), ..mid });
        Ok(())
    }

    /// The attributes of `user`; all zero, owned by the contract's address,
    /// when `user` never registered.
    pub fn get_player_stats(&self, user: &String) -> (r: PlayerStat)
        requires
            self.wf(),
        ensures
            r == stat_of(self@, user@),
    {
        self.stat(user)
    }

    /// Stores `player_stat` as the attributes of `user`.
    pub fn set_player_stats(&mut self, user: String, player_stat: PlayerStat)
        requires
            old(self).wf(),
            player_stat.consistent(),
        ensures
            final(self).wf(),
            final(self)@ == set_player_spec(old(self)@, user, player_stat),
    {
        self.store_player(user, player_stat);
    }

    /// Registered addresses in order of registration.
    pub fn get_players(&self) -> (r: Vec<String>)
        ensures
            r@ == self@.player_list,
    {
        copy_names(&self.player_list)
    }

    /// Replaces the list of registered addresses.
    pub fn set_players(&mut self, players: Vec<String>)
        requires
            old(self).wf(),
        ensures
            final(self).wf(),
            final(self)@ == (GameView { player_list: players@, ..old(self)@ }),
    {
        self.player_list = players;
        assert(self@ =~= GameView { player_list: players@, ..old(self)@ });
    }

    /// Forges a sword of class `class` for `to`: applies the class's
    /// modifiers and records one sword of that class in the ledger.
    pub fn forge_blade(&mut self, to: String, class: u32) -> (r: Result<(), GameError>)
        requires
            old(self).wf(),
        ensures
            final(self).wf(),
            (final(self)@, r) == forge_blade_spec(old(self)@, to, class),
    {
        let mut player = self.stat(&to);
        match player.equip(class) {
            Err(e) => {
                return Err(e);
            },
            Ok(()) => {},
        }
        let ghost before = self@;
        let minted = self.swords.mint_nft(to.clone(), class, 1);
        assert(minted is Ok);
        assert(self@.balances =~= before.balances.insert(
            (to@, class),
            capped_sum(before.balances[(to@, class)], 1),
        ));
        assert(self@ =~= GameView {
            balances: before.balances.insert((to@, class), capped_sum(before.balances[(to@, class)], 1)),
            ..before
        });
        self.store_player(to, player);
        Ok(())
    }

    /// Melts the sword that `from` holds: the attributes return to the
    /// baseline and the ledger's quantity of class `class` for `from` is cleared.
    pub fn melt_blade(&mut self, from: String, class: u32) -> (r: Result<(), GameError>)
        requires
            old(self).wf(),
        ensures
            final(self).wf(),
            (final(self)@, r) == melt_blade_spec(old(self)@, from, class),
    {
        let mut player = self.stat(&from);
        match player.unequip() {
            Err(e) => {
                return Err(e);
            },
            Ok(()) => {},
        }
        let ghost before = self@;
        let _ = self.swords.melt_blade(from.clone(), class);
        let ghost cleared = if class_of(class) is Some {
            before.balances.insert((from@, class), 0)
        } else {
            before.balances
        };
        assert(self@.balances =~= cleared);
        assert(self@ =~= GameView { balances: cleared, ..before });
        self.store_player(from, player);
        Ok(())
    }

    /// Quantity of swords of class `class` that `owner` holds.
    pub fn balance_of(&self, owner: &String, class: u32) -> (r: i128)
        requires
            self.wf(),
        ensures
            r == self@.balances[(owner@, class)],
    {
        self.swords.balance_of(owner, class)
    }

    fn open_battle(&mut self, name: String, user: String, auto: bool) -> (r: Result<(), GameError>)
        requires
            old(self).wf(),
        ensures
            final(self).wf(),
            (final(self)@, r) == create_spec(old(self)@, name, user, auto),
    {
        let mut player = self.stat(&user);
        if player.in_battle {
            return Err(GameError::PlayerAlreadyInBattle);
        }
        match self.battles.get(&name) {
            Some(existing) => {
                if existing.battle_status != BattleStatus::Ended {
                    return Err(GameError::BattleNameTaken);
                }
            },
            None => {},
        }
        let status = if auto {
            BattleStatus::Started
        } else {
            BattleStatus::Pending
        };
        let b = Battle::open(
            name.clone(),
            status,
            user.clone(),
            self.address.clone(),
            self.address.clone(),
        );
        player.in_battle = true;
        self.store_battle(name.clone(), b);
        self.store_player(user, player);
        let ghost mid = self@;
        self.battle_list.push(name);
        assert(self@ =~= GameView { battle_list: mid.battle_list.push(name), ..mid });
        Ok(())
    }

    /// Opens battle `name` with `user` in seat one, pending until an opponent joins.
    pub fn create_battle(&mut self, name: String, user: String) -> (r: Result<(), GameError>)
        requires
            old(self).wf(),
        ensures
            final(self).wf(),
            (final(self)@, r) == create_spec(old(self)@, name, user, false),
    {
        self.open_battle(name, user, false)
    }

    /// Opens battle `name` with `user` in seat one and the contract itself in
    /// seat two, started at once.
    pub fn create_auto_battle(&mut self, name: String, user: String) -> (r: Result<(), GameError>)
        requires
            old(self).wf(),
        ensures
            final(self).wf(),
            (final(self)@, r) == create_spec(old(self)@, name, user, true),
    {
        self.open_battle(name, user, true)
    }

    /// Seats `user` as the second player of the pending battle `name` and starts it.
    pub fn join_battle(&mut self, name: String, user: String) -> (r: Result<(), GameError>)
        requires
            old(self).wf(),
        ensures
            final(self).wf(),
            (final(self)@, r) == join_battle_spec(old(self)@, name, user),
    {
        let mut battle = self.battle(&name);
        if battle.battle_status != BattleStatus::Pending {
            return Err(GameError::BattleAlreadyStarted);
        }
        let mut player = self.stat(&user);
        if player.in_battle {
            return Err(GameError::PlayerAlreadyInBattle);
        }
        battle.battle_status = BattleStatus::Started;
        battle.player_two = user.clone();
        battle.move_one = Move::NoMove;
        battle.move_two = Move::NoMove;
        player.in_battle = true;
        self.store_battle(name, battle);
        self.store_player(user, player);
        Ok(())
    }

    /// Starts the pending battle `name` between `user` in seat one and the
    /// contract itself in seat two.
    pub fn challenge_bot(&mut self, user: String, name: String) -> (r: Result<(), GameError>)
        requires
            old(self).wf(),
        ensures
            final(self).wf(),
            (final(self)@, r) == challenge_bot_spec(old(self)@, user, name),
    {
        let mut battle = self.battle(&name);
        if battle.battle_status != BattleStatus::Pending {
            return Err(GameError::BattleAlreadyStarted);
        }
        battle.battle_status = BattleStatus::Started;
        battle.player_one = user;
        battle.player_two = self.address.clone();
        battle.move_one = Move::NoMove;
        battle.move_two = Move::NoMove;
        self.store_battle(name, battle);
        Ok(())
    }

    /// The battle stored under `name`; a pending battle whose seats hold the
    /// contract's address when there is none.
    pub fn get_battle(&self, name: &String) -> (r: Battle)
        requires
            self.wf(),
        ensures
            r == battle_of(self@, *name),
    {
        self.battle(name)
    }

    /// Stores `battle` under `name`.
    pub fn set_battle(&mut self, name: String, battle: Battle)
        requires
            old(self).wf(),
        ensures
            final(self).wf(),
            final(self)@ == (GameView { battles: old(self)@.battles.insert(name@, battle), ..old(self)@ }),
    {
        self.store_battle(name, battle);
    }

    /// Names of created battles in order of creation.
    pub fn get_battles(&self) -> (r: Vec<String>)
        ensures
            r@ == self@.battle_list,
    {
        copy_names(&self.battle_list)
    }

    /// Replaces the list of battle names.
    pub fn set_battles(&mut self, battles: Vec<String>)
        requires
            old(self).wf(),
        ensures
            final(self).wf(),
            final(self)@ == (GameView { battle_list: battles@, ..old(self)@ }),
    {
        self.battle_list = battles;
        assert(self@ =~= GameView { battle_list: battles@, ..old(self)@ });
    }

    /// Raises the health of `user` by `incr`, held at `u32::MAX`; returns the new value.
    pub fn increase_health(&mut self, user: String, incr: u32) -> (r: u32)
        requires
            old(self).wf(),
        ensures
            final(self).wf(),
            r == saturate(stat_of(old(self)@, user@).health + incr),
            final(self)@ == (GameView {
                players: old(self)@.players.insert(
                    user@,
                    PlayerStat { health: r, ..stat_of(old(self)@, user@) },
                ),
                ..old(self)@
            }),
    {
        let mut player = self.stat(&user);
        player.health = player.health.saturating_add(incr);
        let r = player.health;
        self.store_player(user, player);
        r
    }

    /// Lowers the health of `user` by `decr`, held at zero; returns the new value.
    pub fn decrease_health(&mut self, user: String, decr: u32) -> (r: u32)
        requires
            old(self).wf(),
        ensures
            final(self).wf(),
            r == saturate(stat_of(old(self)@, user@).health - decr),
            final(self)@ == (GameView {
                players: old(self)@.players.insert(
                    user@,
                    PlayerStat { health: r, ..stat_of(old(self)@, user@) },
                ),
                ..old(self)@
            }),
    {
        let mut player = self.stat(&user);
        player.health = player.health.saturating_sub(decr);
        let r = player.health;
        self.store_player(user, player);
        r
    }

    /// Raises the attack of `user` by `incr`, held at `u32::MAX`; returns the new value.
    pub fn increase_attack(&mut self, user: String, incr: u32) -> (r: u32)
        requires
            old(self).wf(),
        ensures
            final(self).wf(),
            r == saturate(stat_of(old(self)@, user@).attack + incr),
            final(self)@ == (GameView {
                players: old(self)@.players.insert(
                    user@,
                    PlayerStat { attack: r, ..stat_of(old(self)@, user@) },
                ),
                ..old(self)@
            }),
    {
        let mut player = self.stat(&user);
        player.attack = player.attack.saturating_add(incr);
        let r = player.attack;
        self.store_player(user, player);
        r
    }

    /// Lowers the attack of `user` by `decr`, held at zero; returns the new value.
    pub fn decrease_attack(&mut self, user: String, decr: u32) -> (r: u32)
        requires
            old(self).wf(),
        ensures
            final(self).wf(),
            r == saturate(stat_of(old(self)@, user@).attack - decr),
            final(self)@ == (GameView {
                players: old(self)@.players.insert(
                    user@,
                    PlayerStat { attack: r, ..stat_of(old(self)@, user@) },
                ),
                ..old(self)@
            }),
    {
        let mut player = self.stat(&user);
        player.attack = player.attack.saturating_sub(decr);
        let r = player.attack;
        self.store_player(user, player);
        r
    }

    /// Raises the defense of `user` by `incr`, held at `u32::MAX`; returns the new value.
    pub fn increase_defense(&mut self, user: String, incr: u32) -> (r: u32)
        requires
            old(self).wf(),
        ensures
            final(self).wf(),
            r == saturate(stat_of(old(self)@, user@).defense + incr),
            final(self)@ == (GameView {
                players: old(self)@.players.insert(
                    user@,
                    PlayerStat { defense: r, ..stat_of(old(self)@, user@) },
                ),
                ..old(self)@
            }),
    {
        let mut player = self.stat(&user);
        player.defense = player.defense.saturating_add(incr);
        let r = player.defense;
        self.store_player(user, player);
        r
    }

    /// Lowers the defense of `user` by `decr`, held at zero; returns the new value.
    pub fn decrease_defense(&mut self, user: String, decr: u32) -> (r: u32)
        requires
            old(self).wf(),
        ensures
            final(self).wf(),
            r == saturate(stat_of(old(self)@, user@).defense - decr),
            final(self)@ == (GameView {
                players: old(self)@.players.insert(
                    user@,
                    PlayerStat { defense: r, ..stat_of(old(self)@, user@) },
                ),
                ..old(self)@
            }),
    {
        let mut player = self.stat(&user);
        player.defense = player.defense.saturating_sub(decr);
        let r = player.defense;
        self.store_player(user, player);
        r
    }

    /// The stored record of `user`, if `user` has one.
    pub fn find_player(&self, user: &String) -> (r: Option<PlayerStat>)
        requires
            self.wf(),
        ensures
            r == if self@.players.contains_key(user@) {
                Some(self@.players[user@])
            } else {
                None
            },
    {
        match self.players.get(user) {
            Some(p) => Some(p.copied()),
            None => None,
        }
    }

    /// The stored battle named `name`, if there is one.
    pub fn find_battle(&self, name: &String) -> (r: Option<Battle>)
        requires
            self.wf(),
        ensures
            r == if self@.battles.contains_key(name@) {
                Some(self@.battles[name@])
            } else {
                None
            },
    {
        match self.battles.get(name) {
            Some(b) => Some(b.copied()),
            None => None,
        }
    }

    /// Sets the quantity of swords of class `class` that `owner` holds.
    pub fn write_balance(&mut self, owner: String, class: u32, amount: i128)
        requires
            old(self).wf(),
        ensures
            final(self).wf(),
            final(self)@ == (GameView {
                balances: if class_of(class) is Some {
                    old(self)@.balances.insert((owner@, class), amount as int)
                } else {
                    old(self)@.balances
                },
                ..old(self)@
            }),
    {
        let ghost before = self@;
        let ghost key = (owner@, class);
        write_balance(&mut self.swords, owner, class, amount);
        let ghost after = if class_of(class) is Some {
            before.balances.insert(key, amount as int)
        } else {
            before.balances
        };
        assert(self@.balances =~= after);
        assert(self@ =~= GameView { balances: after, ..before });
    }
}

} // verus!
