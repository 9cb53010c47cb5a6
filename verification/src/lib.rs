//! Authoritative state engine for a collectible-card game: card minting under
//! economic limits, two-player turn-based battles, and peer-to-peer trading
//! offers. The engine is pure transition logic: every operation takes the
//! records it touches together with the caller's identity, the settled payment
//! amount and the current time as plain values, and either commits all of its
//! writes and returns the notifications to emit, or fails with a typed error
//! and changes nothing. Durable storage, payment settlement, the clock and
//! signature checks belong to the host that drives the engine.

mod battle;
mod errors;
mod events;
mod game;
mod laws;
mod state;
mod trading;

pub use battle::{
    battle_entry, calculate_damage, create_battle, create_battle_error, damage_value,
    execute_move, execute_move_error, join_battle, join_battle_error,
};
pub use errors::ErrorCode;
pub use events::{
    BattleCreated, BattleFinished, BattleJoined, BattleStarted, MoveExecuted, PokemonCardMinted,
    TradingOfferAccepted, TradingOfferCreated,
};
pub use game::{initialize, mint_error, mint_pokemon_card};
pub use laws::{
    lemma_accept_expiry_boundary, lemma_battle_entry_marks_player_active,
    lemma_damage_at_least_one, lemma_ids_strictly_increase, lemma_mint_boundary,
};
pub use state::{
    Battle, BattleStatus, GameState, PlayerId, PlayerState, PokemonCard, PokemonCardData,
    PokemonMove, TradingOffer, NO_PLAYER,
};
pub use trading::{
    accept_trading_offer, accept_trading_offer_error, create_trading_offer,
    create_trading_offer_error,
};
