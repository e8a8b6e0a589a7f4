//! A turn-based two-player combat game: a player registry, a sword ledger
//! whose items modify combat attributes, and a battle engine that resolves
//! simultaneous moves.

pub mod table;
pub mod player;
pub mod resolve;
pub mod battle;
pub mod sword;
pub mod contract;
pub mod lemmas;

pub use battle::{Battle, BattleStatus, Seat};
pub use contract::BattleContract;
pub use player::{GameError, PlayerStat, SwordClass};
pub use resolve::{resolve_round, Fighter, Move, RoundResult};
pub use sword::{Holdings, SwordContract, TokenMetadata};
