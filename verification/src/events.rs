use vstd::prelude::*;
use crate::state::PlayerId;

verus! {

/// Notification that a card was minted. Operations return the notifications
/// they would emit; the host forwards them to its fire-and-forget sink.
#[derive(Clone, Debug)]
pub struct PokemonCardMinted {
    pub token_id: u64,
    pub owner: PlayerId,
    pub name: String,
    pub pokemon_type: u8,
    pub rarity: u8,
}

/// Notification that a battle was opened and awaits an opponent.
#[derive(Clone, Copy, Debug, PartialEq, Eq, Structural)]
pub struct BattleCreated {
    pub battle_id: u64,
    pub player1: PlayerId,
    pub player2: PlayerId,
}

/// Notification that a second player joined a waiting battle.
#[derive(Clone, Copy, Debug, PartialEq, Eq, Structural)]
pub struct BattleJoined {
    pub battle_id: u64,
    pub player: PlayerId,
}

/// Notification that a battle moved from Waiting to Active.
#[derive(Clone, Copy, Debug, PartialEq, Eq, Structural)]
pub struct BattleStarted {
    pub battle_id: u64,
}

/// Notification that a battle reached its terminal Finished state.
#[derive(Clone, Copy, Debug, PartialEq, Eq, Structural)]
pub struct BattleFinished {
    pub battle_id: u64,
    pub winner: PlayerId,
}

/// Notification of one executed move and the damage it dealt.
#[derive(Clone, Debug)]
pub struct MoveExecuted {
    pub battle_id: u64,
    pub player: PlayerId,
    pub move_name: String,
    pub damage: u64,
}

/// Notification that a trading offer was opened.
#[derive(Clone, Copy, Debug, PartialEq, Eq)]
pub struct TradingOfferCreated {
    pub offer_id: u64,
    pub offerer: PlayerId,
    pub target_player: Option<PlayerId>,
}

/// Notification that a trading offer was accepted and closed.
#[derive(Clone, Copy, Debug, PartialEq, Eq, Structural)]
pub struct TradingOfferAccepted {
    pub offer_id: u64,
    pub accepter: PlayerId,
}

} // verus!
