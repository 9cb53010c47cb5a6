use vstd::prelude::*;

verus! {

/// An authenticated identity (player or authority). The host maps its own
/// opaque account keys to these integers; `NO_PLAYER` is the default value a
/// record holds before any identity is written into it.
pub type PlayerId = u64;

/// The default identity: stands in a battle's `player2` slot until an opponent
/// joins.
pub const NO_PLAYER: PlayerId = 0;

/// Game-wide configuration and the three monotonic id counters. Set once at
/// bootstrap by `initialize`; afterwards only the counters change, and they
/// only ever increase.
#[derive(Clone, Copy, Debug, PartialEq, Eq, Structural)]
pub struct GameState {
    pub authority: PlayerId,
    pub total_cards_minted: u64,
    pub total_battles: u64,
    pub total_trades: u64,
    pub mint_price: u64,
    pub battle_reward: u64,
    pub trading_fee: u64,
    pub max_cards_per_player: u64,
    pub max_battle_duration: u64,
    pub max_energy: u64,
    pub energy_per_turn: u64,
    pub offer_expiration_time: u64,
}

/// Per-identity registry record, created lazily on first use with zeroed
/// counters.
#[derive(Clone, Copy, Debug, PartialEq, Eq, Structural)]
pub struct PlayerState {
    pub player: PlayerId,
    pub card_count: u64,
    pub active_battle_id: u64,
    pub energy: u64,
    pub wins: u64,
    pub losses: u64,
}

impl PlayerState {
    /// A fresh registry record for `player`: zeroed counters, no active battle.
    pub fn new(player: PlayerId) -> (player_state: PlayerState)
        ensures
            player_state == (PlayerState {
                player,
                card_count: 0,
                active_battle_id: 0,
                energy: 0,
                wins: 0,
                losses: 0,
            }),
    {
        PlayerState { player, card_count: 0, active_battle_id: 0, energy: 0, wins: 0, losses: 0 }
    }
}

/// One move in a card's move list, owned by exactly one card.
/// `move_type` tags the category: 0 physical, 1 special, 2 status.
#[derive(Clone, Debug)]
pub struct PokemonMove {
    pub name: String,
    pub pokemon_type: u8,
    pub move_type: u8,
    pub power: u64,
    pub accuracy: u64,
    pub energy_cost: u64,
    pub description: String,
}

/// A minted card. The stat block is immutable after minting; only ownership
/// (on trade) and `is_active` may change later.
#[derive(Clone, Debug)]
pub struct PokemonCard {
    pub token_id: u64,
    pub owner: PlayerId,
    pub name: String,
    pub pokemon_type: u8,
    pub hp: u64,
    pub attack: u64,
    pub defense: u64,
    pub speed: u64,
    pub rarity: u8,
    pub evolution_stage: u8,
    pub evolution_cost: u64,
    pub moves: Vec<PokemonMove>,
    pub image_uri: String,
    pub description: String,
    pub is_active: bool,
    pub minted_at: i64,
}

/// The caller-supplied description of a card to mint: everything of a
/// `PokemonCard` except the fields the engine assigns itself (token id, owner,
/// activity flag, mint time).
#[derive(Clone, Debug)]
pub struct PokemonCardData {
    pub name: String,
    pub pokemon_type: u8,
    pub hp: u64,
    pub attack: u64,
    pub defense: u64,
    pub speed: u64,
    pub rarity: u8,
    pub evolution_stage: u8,
    pub evolution_cost: u64,
    pub moves: Vec<PokemonMove>,
    pub image_uri: String,
    pub description: String,
}

/// Lifecycle of a battle. `Waiting` awaits an opponent; `Active` is in play;
/// `Finished` and `Cancelled` are terminal. No operation currently produces
/// `Cancelled`: the state is reachable by type so a future abort path can use
/// it without reshaping the data.
#[derive(Clone, Copy, Debug, PartialEq, Eq, Structural)]
pub enum BattleStatus {
    Waiting,
    Active,
    Finished,
    Cancelled,
}

/// A battle between two players over teams of 1 to 6 owned cards.
#[derive(Clone, Debug)]
pub struct Battle {
    pub battle_id: u64,
    pub player1: PlayerId,
    pub player2: PlayerId,
    pub player1_pokemon: Vec<u64>,
    pub player2_pokemon: Vec<u64>,
    pub status: BattleStatus,
    pub turn_number: u64,
    pub current_player: PlayerId,
    pub created_at: i64,
    pub finished_at: i64,
}

/// A trading offer: the offerer's cards against the requested ones, optionally
/// reserved for a single target identity. Once `is_active` turns false it
/// never reverts.
#[derive(Clone, Debug)]
pub struct TradingOffer {
    pub offer_id: u64,
    pub offerer: PlayerId,
    pub offered_cards: Vec<u64>,
    pub target_player: Option<PlayerId>,
    pub requested_cards: Vec<u64>,
    pub is_active: bool,
    pub created_at: i64,
    pub expires_at: i64,
}

} // verus!
