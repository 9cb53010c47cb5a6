use vstd::prelude::*;
use crate::errors::ErrorCode;
use crate::events::{TradingOfferAccepted, TradingOfferCreated};
use crate::state::{GameState, PlayerId, TradingOffer};

verus! {

/// The first rule an offer-creation request violates, or `None` when it must
/// succeed: the settled payment must reach the trading fee, and both card
/// lists must be non-empty.
pub open spec fn create_trading_offer_error(
    game_state: GameState,
    offered: Seq<u64>,
    requested: Seq<u64>,
    payment_amount: u64,
) -> Option<ErrorCode> {
    if payment_amount < game_state.trading_fee {
        Some(ErrorCode::InsufficientPayment)
    } else if !(offered.len() > 0 && requested.len() > 0) {
        Some(ErrorCode::InvalidTradingOffer)
    } else {
        None
    }
}

/// Open a trading offer from `player`, public or reserved for `target_player`.
/// On success the offer id is exactly the current global counter, the counter
/// advances by one, and the offer is active from `now` until
/// `now + offer_expiration_time`. On failure nothing changes.
pub fn create_trading_offer(
    game_state: &mut GameState,
    player: PlayerId,
    offered_cards: Vec<u64>,
    requested_cards: Vec<u64>,
    target_player: Option<PlayerId>,
    payment_amount: u64,
    now: i64,
) -> (result: Result<(TradingOffer, TradingOfferCreated), ErrorCode>)
    requires
        old(game_state).total_trades < u64::MAX,
        old(game_state).offer_expiration_time <= i64::MAX,
        now + old(game_state).offer_expiration_time <= i64::MAX,
    ensures
        create_trading_offer_error(*old(game_state), offered_cards@, requested_cards@, payment_amount)
            matches Some(e) ==> ({
            &&& result == Err::<(TradingOffer, TradingOfferCreated), ErrorCode>(e)
            &&& *final(game_state) == *old(game_state)
        }),
        create_trading_offer_error(*old(game_state), offered_cards@, requested_cards@, payment_amount)
            is None ==> ({
            &&& result is Ok
            &&& result->Ok_0.0 == (TradingOffer {
                offer_id: old(game_state).total_trades,
                offerer: player,
                offered_cards,
                target_player,
                requested_cards,
                is_active: true,
                created_at: now,
                expires_at: (now + old(game_state).offer_expiration_time) as i64,
            })
            &&& result->Ok_0.1 == (TradingOfferCreated {
                offer_id: old(game_state).total_trades,
                offerer: player,
                target_player,
            })
            &&& *final(game_state) == (GameState {
                total_trades: (old(game_state).total_trades + 1) as u64,
                ..*old(game_state)
            })
        }),
{
    if payment_amount < game_state.trading_fee {
        return Err(ErrorCode::InsufficientPayment);
    }
    if !(offered_cards.len() > 0 && requested_cards.len() > 0) {
        return Err(ErrorCode::InvalidTradingOffer);
    }

    let offer = TradingOffer {
        offer_id: game_state.total_trades,
        offerer: player,
        offered_cards,
        target_player,
        requested_cards,
        is_active: true,
        created_at: now,
        expires_at: now + (game_state.offer_expiration_time as i64),
    };
    let created = TradingOfferCreated {
        offer_id: offer.offer_id,
        offerer: offer.offerer,
        target_player: offer.target_player,
    };

    game_state.total_trades = game_state.total_trades + 1;

    Ok((offer, created))
}

/// The first rule an acceptance violates, or `None` when it must succeed: the
/// offer must still be active and not past its expiry (`now == expires_at`
/// still succeeds), the settled payment must reach the trading fee, and a
/// targeted offer may only be accepted by its target.
pub open spec fn accept_trading_offer_error(
    offer: TradingOffer,
    game_state: GameState,
    player: PlayerId,
    payment_amount: u64,
    now: i64,
) -> Option<ErrorCode> {
    if !offer.is_active {
        Some(ErrorCode::OfferNotActive)
    } else if now > offer.expires_at {
        Some(ErrorCode::OfferExpired)
    } else if payment_amount < game_state.trading_fee {
        Some(ErrorCode::InsufficientPayment)
    } else if !(offer.target_player is None || offer.target_player == Some(player)) {
        Some(ErrorCode::OfferNotTargetedToYou)
    } else {
        None
    }
}

/// Accept a trading offer as `player`. On success the offer is closed — its
/// `is_active` flag turns false, never to revert — and the acceptance
/// notification is returned; the card-ownership swap itself is a declared step
/// the engine does not yet perform. On failure nothing changes.
pub fn accept_trading_offer(
    trading_offer: &mut TradingOffer,
    game_state: &GameState,
    player: PlayerId,
    payment_amount: u64,
    now: i64,
) -> (result: Result<TradingOfferAccepted, ErrorCode>)
    ensures
        accept_trading_offer_error(*old(trading_offer), *game_state, player, payment_amount, now)
            matches Some(e) ==> ({
            &&& result == Err::<TradingOfferAccepted, ErrorCode>(e)
            &&& *final(trading_offer) == *old(trading_offer)
        }),
        accept_trading_offer_error(*old(trading_offer), *game_state, player, payment_amount, now)
            is None ==> ({
            &&& result is Ok
            &&& *final(trading_offer) == (TradingOffer { is_active: false, ..*old(trading_offer) })
            &&& result->Ok_0 == (TradingOfferAccepted {
                offer_id: old(trading_offer).offer_id,
                accepter: player,
            })
        }),
{
    if !trading_offer.is_active {
        return Err(ErrorCode::OfferNotActive);
    }
    if now > trading_offer.expires_at {
        return Err(ErrorCode::OfferExpired);
    }
    if payment_amount < game_state.trading_fee {
        return Err(ErrorCode::InsufficientPayment);
    }
    let targeted_to_caller = match trading_offer.target_player {
        None => true,
        Some(target) => target == player,
    };
    if !targeted_to_caller {
        return Err(ErrorCode::OfferNotTargetedToYou);
    }

    trading_offer.is_active = false;

    Ok(TradingOfferAccepted { offer_id: trading_offer.offer_id, accepter: player })
}

} // verus!
