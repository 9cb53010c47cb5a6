use pokemon_card_game::{initialize, mint_pokemon_card, ErrorCode, PlayerState, PokemonCardData};

fn plain_card_data(hp: u64, attack: u64, defense: u64) -> PokemonCardData {
    PokemonCardData {
        name: "Sparky".to_string(),
        pokemon_type: 0,
        hp,
        attack,
        defense,
        speed: 10,
        rarity: 1,
        evolution_stage: 0,
        evolution_cost: 0,
        moves: Vec::new(),
        image_uri: "ipfs://sparky".to_string(),
        description: "A spark-tailed starter".to_string(),
    }
}

#[test]
fn initialize_sets_default_tunables() {
    let game = initialize(42);
    assert_eq!(game.authority, 42);
    assert_eq!(game.total_cards_minted, 0);
    assert_eq!(game.total_battles, 0);
    assert_eq!(game.total_trades, 0);
    assert_eq!(game.mint_price, 1_000_000);
    assert_eq!(game.battle_reward, 500_000);
    assert_eq!(game.trading_fee, 100_000);
    assert_eq!(game.max_cards_per_player, 1000);
    assert_eq!(game.max_battle_duration, 3600);
    assert_eq!(game.max_energy, 100);
    assert_eq!(game.energy_per_turn, 10);
    assert_eq!(game.offer_expiration_time, 604_800);
}

#[test]
fn new_player_record_is_zeroed() {
    let player = PlayerState::new(7);
    assert_eq!(player.player, 7);
    assert_eq!(player.card_count, 0);
    assert_eq!(player.active_battle_id, 0);
    assert_eq!(player.energy, 0);
    assert_eq!(player.wins, 0);
    assert_eq!(player.losses, 0);
}

#[test]
fn first_mint_gets_token_zero() {
    let mut game = initialize(1);
    let mut alice = PlayerState::new(10);
    let result = mint_pokemon_card(&mut game, &mut alice, 10, 1_000_000, 500, plain_card_data(60, 50, 30));
    let (card, minted) = result.expect("paid mint under the limit succeeds");
    assert_eq!(card.token_id, 0);
    assert_eq!(card.owner, 10);
    assert_eq!(card.name, "Sparky");
    assert_eq!(card.hp, 60);
    assert_eq!(card.attack, 50);
    assert_eq!(card.defense, 30);
    assert!(card.is_active);
    assert_eq!(card.minted_at, 500);
    assert_eq!(minted.token_id, 0);
    assert_eq!(minted.owner, 10);
    assert_eq!(minted.name, "Sparky");
    assert_eq!(alice.card_count, 1);
    assert_eq!(game.total_cards_minted, 1);
}

#[test]
fn underpaid_mint_changes_nothing() {
    let mut game = initialize(1);
    let mut alice = PlayerState::new(10);
    let result = mint_pokemon_card(&mut game, &mut alice, 10, 999_999, 500, plain_card_data(60, 50, 30));
    assert_eq!(result.unwrap_err(), ErrorCode::InsufficientPayment);
    assert_eq!(game.total_cards_minted, 0);
    assert_eq!(alice.card_count, 0);
}

#[test]
fn mint_fails_exactly_at_card_limit() {
    let mut game = initialize(1);

    let mut at_limit = PlayerState::new(10);
    at_limit.card_count = 1000;
    let result = mint_pokemon_card(&mut game, &mut at_limit, 10, 1_000_000, 500, plain_card_data(60, 50, 30));
    assert_eq!(result.unwrap_err(), ErrorCode::MaxCardsExceeded);
    assert_eq!(at_limit.card_count, 1000);
    assert_eq!(game.total_cards_minted, 0);

    let mut one_below = PlayerState::new(11);
    one_below.card_count = 999;
    let result = mint_pokemon_card(&mut game, &mut one_below, 11, 1_000_000, 500, plain_card_data(60, 50, 30));
    assert!(result.is_ok());
    assert_eq!(one_below.card_count, 1000);
}

#[test]
fn token_ids_increase_and_skip_failed_attempts() {
    let mut game = initialize(1);
    let mut alice = PlayerState::new(10);
    let mut bob = PlayerState::new(20);

    let (first, _) = mint_pokemon_card(&mut game, &mut alice, 10, 1_000_000, 500, plain_card_data(60, 50, 30)).unwrap();
    assert_eq!(first.token_id, 0);

    let rejected = mint_pokemon_card(&mut game, &mut bob, 20, 0, 501, plain_card_data(60, 50, 30));
    assert!(rejected.is_err());
    assert_eq!(game.total_cards_minted, 1);

    let (second, _) = mint_pokemon_card(&mut game, &mut bob, 20, 1_000_000, 502, plain_card_data(60, 50, 30)).unwrap();
    assert_eq!(second.token_id, 1);
    let (third, _) = mint_pokemon_card(&mut game, &mut alice, 10, 1_000_000, 503, plain_card_data(60, 50, 30)).unwrap();
    assert_eq!(third.token_id, 2);
    assert_eq!(game.total_cards_minted, 3);
}
