use vstd::prelude::*;
use crate::errors::ErrorCode;
use crate::events::PokemonCardMinted;
use crate::state::{GameState, PlayerId, PlayerState, PokemonCard, PokemonCardData};

verus! {

/// Bootstrap the game: fixed default tunables, all counters at zero. The
/// storage layer guarantees this runs at most once per deployment; the engine
/// itself only produces the configured value.
pub fn initialize(authority: PlayerId) -> (game_state: GameState)
    ensures
        game_state == (GameState {
            authority,
            total_cards_minted: 0,
            total_battles: 0,
            total_trades: 0,
            mint_price: 1000000,
            battle_reward: 500000,
            trading_fee: 100000,
            max_cards_per_player: 1000,
            max_battle_duration: 3600,
            max_energy: 100,
            energy_per_turn: 10,
            offer_expiration_time: 604800,
        }),
{
    GameState {
        authority,
        total_cards_minted: 0,
        total_battles: 0,
        total_trades: 0,
        mint_price: 1000000,
        battle_reward: 500000,
        trading_fee: 100000,
        max_cards_per_player: 1000,
        max_battle_duration: 3600,
        max_energy: 100,
        energy_per_turn: 10,
        offer_expiration_time: 604800,
    }
}

/// The first rule a mint request violates, or `None` when it must succeed:
/// the settled payment must reach the mint price, and the owner must be under
/// the per-player card limit.
pub open spec fn mint_error(
    game_state: GameState,
    player_state: PlayerState,
    payment_amount: u64,
) -> Option<ErrorCode> {
    if payment_amount < game_state.mint_price {
        Some(ErrorCode::InsufficientPayment)
    } else if player_state.card_count >= game_state.max_cards_per_player {
        Some(ErrorCode::MaxCardsExceeded)
    } else {
        None
    }
}

/// Mint a new card for `player`. On success the card's token id is exactly the
/// current global counter (no gaps, no reuse), the counter and the owner's
/// card count each advance by one, and the minted-card notification is
/// returned. On failure nothing changes.
pub fn mint_pokemon_card(
    game_state: &mut GameState,
    player_state: &mut PlayerState,
    player: PlayerId,
    payment_amount: u64,
    now: i64,
    card_data: PokemonCardData,
) -> (result: Result<(PokemonCard, PokemonCardMinted), ErrorCode>)
    requires
        old(game_state).total_cards_minted < u64::MAX,
    ensures
        mint_error(*old(game_state), *old(player_state), payment_amount) matches Some(e) ==> ({
            &&& result == Err::<(PokemonCard, PokemonCardMinted), ErrorCode>(e)
            &&& *final(game_state) == *old(game_state)
            &&& *final(player_state) == *old(player_state)
        }),
        mint_error(*old(game_state), *old(player_state), payment_amount) is None ==> ({
            &&& result is Ok
            &&& result->Ok_0.0 == (PokemonCard {
                token_id: old(game_state).total_cards_minted,
                owner: player,
                name: card_data.name,
                pokemon_type: card_data.pokemon_type,
                hp: card_data.hp,
                attack: card_data.attack,
                defense: card_data.defense,
                speed: card_data.speed,
                rarity: card_data.rarity,
                evolution_stage: card_data.evolution_stage,
                evolution_cost: card_data.evolution_cost,
                moves: card_data.moves,
                image_uri: card_data.image_uri,
                description: card_data.description,
                is_active: true,
                minted_at: now,
            })
            &&& result->Ok_0.1 == (PokemonCardMinted {
                token_id: old(game_state).total_cards_minted,
                owner: player,
                name: card_data.name,
                pokemon_type: card_data.pokemon_type,
                rarity: card_data.rarity,
            })
            &&& *final(game_state) == (GameState {
                total_cards_minted: (old(game_state).total_cards_minted + 1) as u64,
                ..*old(game_state)
            })
            &&& *final(player_state) == (PlayerState {
                card_count: (old(player_state).card_count + 1) as u64,
                ..*old(player_state)
            })
        }),
{
    if payment_amount < game_state.mint_price {
        return Err(ErrorCode::InsufficientPayment);
    }
    if player_state.card_count >= game_state.max_cards_per_player {
        return Err(ErrorCode::MaxCardsExceeded);
    }

    let card = PokemonCard {
        token_id: game_state.total_cards_minted,
        owner: player,
        name: card_data.name,
        pokemon_type: card_data.pokemon_type,
        hp: card_data.hp,
        attack: card_data.attack,
        defense: card_data.defense,
        speed: card_data.speed,
        rarity: card_data.rarity,
        evolution_stage: card_data.evolution_stage,
        evolution_cost: card_data.evolution_cost,
        moves: card_data.moves,
        image_uri: card_data.image_uri,
        description: card_data.description,
        is_active: true,
        minted_at: now,
    };
    let minted = PokemonCardMinted {
        token_id: card.token_id,
        owner: card.owner,
        name: card.name.clone(),
        pokemon_type: card.pokemon_type,
        rarity: card.rarity,
    };

    game_state.total_cards_minted = game_state.total_cards_minted + 1;
    player_state.card_count = player_state.card_count + 1;

    Ok((card, minted))
}

} // verus!
