use vstd::prelude::*;

verus! {

/// Baseline attributes of a registered player without a sword.
pub const BASE_HEALTH: u32 = 100;
pub const BASE_ATTACK: u32 = 10;
pub const BASE_DEFENSE: u32 = 10;

/// What an operation of the game refuses, and why.
#[derive(Clone, Copy, PartialEq, Eq, Debug, Structural)]
pub enum GameError {
    /// The address already has a player record.
    AlreadyRegistered,
    /// The player already holds a sword.
    AlreadyEquipped,
    /// The player holds no sword.
    NotEquipped,
    /// Equipment cannot change while the player is in a battle.
    InBattle,
    /// The sword class is not one of the known classes.
    InvalidClass,
    /// A token amount was negative.
    NegativeAmount,
    /// The player is already in a battle.
    PlayerAlreadyInBattle,
    /// A battle of that name is still pending or started.
    BattleNameTaken,
    /// The battle is no longer waiting for an opponent.
    BattleAlreadyStarted,
    /// A move choice other than attack or defend.
    InvalidChoice,
    /// Moves are only taken in a started battle.
    BattleNotStarted,
    /// The caller holds no seat in the battle.
    NotAParticipant,
    /// The caller has already moved this round.
    MoveAlreadySubmitted,
}

/// The three kinds of sword a player can forge.
#[derive(Clone, Copy, PartialEq, Eq, Debug, Structural)]
pub enum SwordClass {
    /// Balanced two-handed sword.
    Longsword,
    /// Light curved sword, fast and precise.
    Sabre,
    /// Massive two-handed sword with great reach.
    Claymore,
}

/// The class with the given identifier: 1, 2 and 3 name the three classes.
pub open spec fn class_of(id: u32) -> Option<SwordClass> {
    if id == 1 {
        Some(SwordClass::Longsword)
    } else if id == 2 {
        Some(SwordClass::Sabre)
    } else if id == 3 {
        Some(SwordClass::Claymore)
    } else {
        None
    }
}

/// `x`, held within the range of `u32`.
pub open spec fn saturate(x: int) -> u32 {
    if x < 0 {
        0
    } else if x > u32::MAX {
        u32::MAX
    } else {
        x as u32
    }
}

impl SwordClass {
    pub open spec fn spec_id(self) -> u32 {
        match self {
            SwordClass::Longsword => 1,
            SwordClass::Sabre => 2,
            SwordClass::Claymore => 3,
        }
    }

    /// Change to health that wielding the sword brings.
    pub open spec fn spec_health_delta(self) -> int {
        match self {
            SwordClass::Longsword => 8,
            SwordClass::Sabre => -3,
            SwordClass::Claymore => 7,
        }
    }

    /// Change to attack that wielding the sword brings.
    pub open spec fn spec_attack_delta(self) -> int {
        match self {
            SwordClass::Longsword => 4,
            SwordClass::Sabre => 16,
            SwordClass::Claymore => 11,
        }
    }

    /// Change to defense that wielding the sword brings.
    pub open spec fn spec_defense_delta(self) -> int {
        match self {
            SwordClass::Longsword => 3,
            SwordClass::Sabre => 2,
            SwordClass::Claymore => -3,
        }
    }

    pub fn from_id(id: u32) -> (r: Option<SwordClass>)
        ensures
            r == class_of(id),
    {
        if id == 1 {
            Some(SwordClass::Longsword)
        } else if id == 2 {
            Some(SwordClass::Sabre)
        } else if id == 3 {
            Some(SwordClass::Claymore)
        } else {
            None
        }
    }

    #[verifier::when_used_as_spec(spec_id)]
    pub fn id(self) -> (r: u32)
        ensures
            r == self.spec_id(),
    {
        match self {
            SwordClass::Longsword => 1,
            SwordClass::Sabre => 2,
            SwordClass::Claymore => 3,
        }
    }

    /// The class's modifiers to health, attack and defense.
    pub fn deltas(self) -> (r: (i32, i32, i32))
        ensures
            r.0 == self.spec_health_delta(),
            r.1 == self.spec_attack_delta(),
            r.2 == self.spec_defense_delta(),
    {
        match self {
            SwordClass::Longsword => (8, 4, 3),
            SwordClass::Sabre => (-3, 16, 2),
            SwordClass::Claymore => (7, 11, -3),
        }
    }

    pub open spec fn spec_name(self) -> Seq<char> {
        match self {
            SwordClass::Longsword => "Longsword"@,
            SwordClass::Sabre => "Sabre"@,
            SwordClass::Claymore => "Claymore"@,
        }
    }

    pub open spec fn spec_symbol(self) -> Seq<char> {
        match self {
            SwordClass::Longsword => "LS"@,
            SwordClass::Sabre => "S"@,
            SwordClass::Claymore => "C"@,
        }
    }

    pub open spec fn spec_token_uri(self) -> Seq<char> {
        match self {
            SwordClass::Longsword => "https://example/token0"@,
            SwordClass::Sabre => "https://example/token1"@,
            SwordClass::Claymore => "https://example/token2"@,
        }
    }

    /// Display name of the class.
    pub fn name(self) -> (r: String)
        ensures
            r@ == self.spec_name(),
    {
        match self {
            SwordClass::Longsword => "Longsword".to_owned(),
            SwordClass::Sabre => "Sabre".to_owned(),
            SwordClass::Claymore => "Claymore".to_owned(),
        }
    }

    /// Short symbol of the class.
    pub fn symbol(self) -> (r: String)
        ensures
            r@ == self.spec_symbol(),
    {
        match self {
            SwordClass::Longsword => "LS".to_owned(),
            SwordClass::Sabre => "S".to_owned(),
            SwordClass::Claymore => "C".to_owned(),
        }
    }

    /// Where the class's token description lives.
    pub fn token_uri(self) -> (r: String)
        ensures
            r@ == self.spec_token_uri(),
    {
        match self {
            SwordClass::Longsword => "https://example/token0".to_owned(),
            SwordClass::Sabre => "https://example/token1".to_owned(),
            SwordClass::Claymore => "https://example/token2".to_owned(),
        }
    }
}

/// Adds a signed change to an attribute, clamping at zero and at `u32::MAX`.
pub fn apply_delta(v: u32, d: i32) -> (r: u32)
    ensures
        r == saturate(v + d),
{
    let x: i64 = v as i64 + d as i64;
    if x < 0 {
        0
    } else if x > u32::MAX as i64 {
        u32::MAX
    } else {
        x as u32
    }
}

/// Combat attributes of one player.
#[derive(Clone, Debug, PartialEq, Eq)]
pub struct PlayerStat {
    pub player_address: String,
    /// Identifier of the equipped sword class, 0 when none is equipped.
    pub sword_class: u32,
    pub health: u32,
    pub attack: u32,
    pub defense: u32,
    pub in_battle: bool,
    pub has_sword: bool,
}

/// The record of a newly registered player.
pub open spec fn baseline(addr: Seq<char>, p: PlayerStat) -> bool {
    &&& p.player_address@ == addr
    &&& p.sword_class == 0
    &&& p.health == BASE_HEALTH
    &&& p.attack == BASE_ATTACK
    &&& p.defense == BASE_DEFENSE
    &&& !p.in_battle
    &&& !p.has_sword
}

/// The outcome of forging a sword of class `class` for `p`.
pub open spec fn equip_spec(p: PlayerStat, class: u32) -> Result<PlayerStat, GameError> {
    if p.has_sword {
        Err(GameError::AlreadyEquipped)
    } else if p.in_battle {
        Err(GameError::InBattle)
    } else {
        match class_of(class) {
            None => Err(GameError::InvalidClass),
            Some(c) => Ok(
                PlayerStat {
                    player_address: p.player_address,
                    sword_class: class,
                    health: saturate(p.health + c.spec_health_delta()),
                    attack: saturate(p.attack + c.spec_attack_delta()),
                    defense: saturate(p.defense + c.spec_defense_delta()),
                    in_battle: false,
                    has_sword: true,
                },
            ),
        }
    }
}

/// The outcome of melting the sword that `p` holds: attributes go back to
/// the baseline rather than losing the sword's deltas.
pub open spec fn unequip_spec(p: PlayerStat) -> Result<PlayerStat, GameError> {
    if !p.has_sword {
        Err(GameError::NotEquipped)
    } else if p.in_battle {
        Err(GameError::InBattle)
    } else {
        Ok(
            PlayerStat {
                player_address: p.player_address,
                sword_class: 0,
                health: BASE_HEALTH,
                attack: BASE_ATTACK,
                defense: BASE_DEFENSE,
                in_battle: false,
                has_sword: false,
            },
        )
    }
}

/// `r` and the record after the call agree with the expected outcome.
pub open spec fn follows(
    expected: Result<PlayerStat, GameError>,
    before: PlayerStat,
    after: PlayerStat,
    r: Result<(), GameError>,
) -> bool {
    match expected {
        Ok(p) => r is Ok && after == p,
        Err(e) => r == Err::<(), GameError>(e) && after == before,
    }
}

impl PlayerStat {
    /// The equipment flag agrees with the class identifier.
    pub open spec fn consistent(&self) -> bool {
        &&& self.has_sword == (self.sword_class != 0)
        &&& self.sword_class <= 3
    }

    /// A fresh player at the baseline.
    pub fn new(addr: String) -> (p: PlayerStat)
        ensures
            baseline(addr@, p),
            p.player_address == addr,
    {
        PlayerStat {
            player_address: addr,
            sword_class: 0,
            health: BASE_HEALTH,
            attack: BASE_ATTACK,
            defense: BASE_DEFENSE,
            in_battle: false,
            has_sword: false,
        }
    }

    /// The all-zero record read for an address that was never registered.
    pub fn unregistered(owner: String) -> (p: PlayerStat)
        ensures
            p == Self::spec_unregistered(owner),
    {
        PlayerStat {
            player_address: owner,
            sword_class: 0,
            health: 0,
            attack: 0,
            defense: 0,
            in_battle: false,
            has_sword: false,
        }
    }

    pub open spec fn spec_unregistered(owner: String) -> PlayerStat {
        PlayerStat {
            player_address: owner,
            sword_class: 0,
            health: 0,
            attack: 0,
            defense: 0,
            in_battle: false,
            has_sword: false,
        }
    }

    /// A field-by-field copy.
    pub fn copied(&self) -> (r: PlayerStat)
        ensures
            r == *self,
    {
        PlayerStat {
            player_address: self.player_address.clone(),
            sword_class: self.sword_class,
            health: self.health,
            attack: self.attack,
            defense: self.defense,
            in_battle: self.in_battle,
            has_sword: self.has_sword,
        }
    }

    /// Forges a sword of class `class` and applies its modifiers.
    pub fn equip(&mut self, class: u32) -> (r: Result<(), GameError>)
        ensures
            follows(equip_spec(*old(self), class), *old(self), *final(self), r),
    {
        if self.has_sword {
            return Err(GameError::AlreadyEquipped);
        }
        if self.in_battle {
            return Err(GameError::InBattle);
        }
        match SwordClass::from_id(class) {
            None => Err(GameError::InvalidClass),
            Some(c) => {
                let (dh, da, dd) = c.deltas();
                self.health = apply_delta(self.health, dh);
                self.attack = apply_delta(self.attack, da);
                self.defense = apply_delta(self.defense, dd);
                self.sword_class = class;
                self.has_sword = true;
                Ok(())
            },
        }
    }

    /// Melts the held sword and resets the attributes to the baseline.
    pub fn unequip(&mut self) -> (r: Result<(), GameError>)
        ensures
            follows(unequip_spec(*old(self)), *old(self), *final(self), r),
    {
        if !self.has_sword {
            return Err(GameError::NotEquipped);
        }
        if self.in_battle {
            return Err(GameError::InBattle);
        }
        self.health = BASE_HEALTH;
        self.attack = BASE_ATTACK;
        self.defense = BASE_DEFENSE;
        self.sword_class = 0;
        self.has_sword = false;
        Ok(())
    }
}

} // verus!
