use vstd::prelude::*;
use crate::battle::{battle_entry, damage_value};
use crate::errors::ErrorCode;
use crate::game::mint_error;
use crate::state::{Battle, GameState, PlayerId, PlayerState, TradingOffer};
use crate::trading::accept_trading_offer_error;

verus! {

/// Ids are strictly increasing and never reused. Each allocating operation
/// hands out the current counter value as the new id and advances the counter
/// by exactly one, and no operation ever decreases a counter — a failed
/// attempt leaves it untouched. So between any two allocations, whatever
/// succeeded or failed in between, the later id is strictly greater than the
/// earlier one. The argument is the same for token ids
/// (`total_cards_minted`), battle ids (`total_battles`) and offer ids
/// (`total_trades`).
pub proof fn lemma_ids_strictly_increase(
    counter_at_first: u64,
    counter_after_first: u64,
    counter_at_second: u64,
    first_id: u64,
    second_id: u64,
)
    requires
        first_id == counter_at_first,
        counter_after_first == counter_at_first + 1,
        counter_at_second >= counter_after_first,
        second_id == counter_at_second,
    ensures
        second_id > first_id,
{
}

/// Damage is at least 1 for every power, attack and defense value — including
/// a powerless move and an undefended target.
pub proof fn lemma_damage_at_least_one(power: u64, attack: u64, defense: u64)
    ensures
        damage_value(power, attack, defense) >= 1,
{
    let raw = (power * attack) / (defense + 50);
    assert(raw >= 0) by {
        vstd::arithmetic::div_mod::lemma_div_pos_is_pos((power * attack) as int, defense + 50);
    };
}

/// A player who enters a battle is linked to it: their registry record holds
/// the battle's id, they stand in the battle as a participant, and the battle
/// is Waiting or Active — so for any battle whose id is not zero, their
/// `active_battle_id` is non-zero. The very first battle carries id zero,
/// which coincides with the "no battle" marker, so it is excluded here; and
/// since finishing a battle leaves the participants' records untouched, a
/// non-zero `active_battle_id` may outlive the battle it names.
pub proof fn lemma_battle_entry_marks_player_active(
    player_state: PlayerState,
    battle: Battle,
    player: PlayerId,
)
    requires
        battle_entry(player_state, battle, player),
        battle.battle_id != 0,
    ensures
        player_state.active_battle_id != 0,
        battle.player1 == player || battle.player2 == player,
        battle.status is Waiting || battle.status is Active,
{
}

/// Minting fails with `MaxCardsExceeded` exactly at the card limit: with the
/// fee paid and the card count within the limit, the limit itself is the one
/// count that is rejected, and every count below it — the last being one
/// under the limit — is accepted.
pub proof fn lemma_mint_boundary(
    game_state: GameState,
    player_state: PlayerState,
    payment_amount: u64,
)
    requires
        payment_amount >= game_state.mint_price,
        player_state.card_count <= game_state.max_cards_per_player,
    ensures
        mint_error(game_state, player_state, payment_amount)
            == Some(ErrorCode::MaxCardsExceeded)
            <==> player_state.card_count == game_state.max_cards_per_player,
        player_state.card_count < game_state.max_cards_per_player ==> mint_error(
            game_state, player_state, payment_amount,
        ) is None,
{
}

/// An active offer's acceptance fails with `OfferExpired` exactly when `now`
/// is past `expires_at`; at `now == expires_at`, with the fee paid and the
/// targeting satisfied, acceptance succeeds.
pub proof fn lemma_accept_expiry_boundary(
    offer: TradingOffer,
    game_state: GameState,
    player: PlayerId,
    payment_amount: u64,
    now: i64,
)
    requires
        offer.is_active,
    ensures
        accept_trading_offer_error(offer, game_state, player, payment_amount, now)
            == Some(ErrorCode::OfferExpired)
            <==> now > offer.expires_at,
        now == offer.expires_at && payment_amount >= game_state.trading_fee
            && (offer.target_player is None || offer.target_player == Some(player))
            ==> accept_trading_offer_error(offer, game_state, player, payment_amount, now) is None,
{
}

} // verus!
