use pokemon_card_game::{
    accept_trading_offer, create_trading_offer, initialize, ErrorCode,
};

#[test]
fn offer_lifecycle_create_accept_close() {
    let mut game = initialize(1);
    let now = 50_000;
    let (mut offer, created) =
        create_trading_offer(&mut game, 10, vec![5], vec![9], None, 100_000, now).unwrap();
    assert_eq!(offer.offer_id, 0);
    assert_eq!(offer.offerer, 10);
    assert_eq!(offer.offered_cards, vec![5]);
    assert_eq!(offer.requested_cards, vec![9]);
    assert_eq!(offer.target_player, None);
    assert!(offer.is_active);
    assert_eq!(offer.created_at, now);
    assert_eq!(offer.expires_at, now + 604_800);
    assert_eq!(created.offer_id, 0);
    assert_eq!(created.offerer, 10);
    assert_eq!(created.target_player, None);
    assert_eq!(game.total_trades, 1);

    let accepted = accept_trading_offer(&mut offer, &game, 20, 100_000, now + 100).unwrap();
    assert_eq!(accepted.offer_id, 0);
    assert_eq!(accepted.accepter, 20);
    assert!(!offer.is_active);

    let again = accept_trading_offer(&mut offer, &game, 20, 100_000, now + 200);
    assert_eq!(again.unwrap_err(), ErrorCode::OfferNotActive);
    assert!(!offer.is_active);
}

#[test]
fn offer_ids_increase_and_skip_failed_attempts() {
    let mut game = initialize(1);
    let (first, _) = create_trading_offer(&mut game, 10, vec![5], vec![9], None, 100_000, 1).unwrap();
    assert_eq!(first.offer_id, 0);

    let rejected = create_trading_offer(&mut game, 10, vec![], vec![9], None, 100_000, 2);
    assert_eq!(rejected.unwrap_err(), ErrorCode::InvalidTradingOffer);
    assert_eq!(game.total_trades, 1);

    let (second, _) = create_trading_offer(&mut game, 10, vec![5], vec![9], None, 100_000, 3).unwrap();
    assert_eq!(second.offer_id, 1);
    assert_eq!(game.total_trades, 2);
}

#[test]
fn create_offer_rejects_bad_requests() {
    let mut game = initialize(1);

    let underpaid = create_trading_offer(&mut game, 10, vec![5], vec![9], None, 99_999, 1);
    assert_eq!(underpaid.unwrap_err(), ErrorCode::InsufficientPayment);

    let nothing_offered = create_trading_offer(&mut game, 10, vec![], vec![9], None, 100_000, 1);
    assert_eq!(nothing_offered.unwrap_err(), ErrorCode::InvalidTradingOffer);

    let nothing_requested = create_trading_offer(&mut game, 10, vec![5], vec![], None, 100_000, 1);
    assert_eq!(nothing_requested.unwrap_err(), ErrorCode::InvalidTradingOffer);

    assert_eq!(game.total_trades, 0);
}

#[test]
fn acceptance_at_the_expiry_instant_succeeds() {
    let mut game = initialize(1);
    let (mut offer, _) = create_trading_offer(&mut game, 10, vec![5], vec![9], None, 100_000, 1).unwrap();
    let deadline = offer.expires_at;
    let accepted = accept_trading_offer(&mut offer, &game, 20, 100_000, deadline);
    assert!(accepted.is_ok());
    assert!(!offer.is_active);
}

#[test]
fn acceptance_one_past_expiry_fails() {
    let mut game = initialize(1);
    let (mut offer, _) = create_trading_offer(&mut game, 10, vec![5], vec![9], None, 100_000, 1).unwrap();
    let deadline = offer.expires_at;
    let expired = accept_trading_offer(&mut offer, &game, 20, 100_000, deadline + 1);
    assert_eq!(expired.unwrap_err(), ErrorCode::OfferExpired);
    assert!(offer.is_active);
}

#[test]
fn targeted_offer_is_reserved_for_its_target() {
    let mut game = initialize(1);
    let (mut offer, created) =
        create_trading_offer(&mut game, 10, vec![5], vec![9], Some(20), 100_000, 1).unwrap();
    assert_eq!(created.target_player, Some(20));

    let stranger = accept_trading_offer(&mut offer, &game, 30, 100_000, 2);
    assert_eq!(stranger.unwrap_err(), ErrorCode::OfferNotTargetedToYou);
    assert!(offer.is_active);

    let target = accept_trading_offer(&mut offer, &game, 20, 100_000, 2);
    assert!(target.is_ok());
    assert!(!offer.is_active);
}

#[test]
fn underpaid_acceptance_fails() {
    let mut game = initialize(1);
    let (mut offer, _) = create_trading_offer(&mut game, 10, vec![5], vec![9], None, 100_000, 1).unwrap();
    let underpaid = accept_trading_offer(&mut offer, &game, 20, 99_999, 2);
    assert_eq!(underpaid.unwrap_err(), ErrorCode::InsufficientPayment);
    assert!(offer.is_active);
}
