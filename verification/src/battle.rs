use vstd::prelude::*;
use crate::errors::ErrorCode;
use crate::events::{BattleCreated, BattleFinished, BattleJoined, BattleStarted, MoveExecuted};
use crate::state::{
    Battle, BattleStatus, GameState, PlayerId, PlayerState, PokemonCard, PokemonMove, NO_PLAYER,
};

verus! {

/// The damage a move deals: `power * attack / (defense + 50)`, rounded down,
/// and never below 1 — even a powerless attack chips one point.
pub open spec fn damage_value(power: u64, attack: u64, defense: u64) -> int {
    let raw = (power * attack) / (defense + 50);
    if raw > 0 {
        raw
    } else {
        1
    }
}

/// Compute the damage `move_data` deals when `attacker` uses it against
/// `defender`.
pub fn calculate_damage(
    attacker: &PokemonCard,
    defender: &PokemonCard,
    move_data: &PokemonMove,
) -> (damage: u64)
    requires
        move_data.power * attacker.attack <= u64::MAX,
        defender.defense <= u64::MAX - 50,
    ensures
        damage == damage_value(move_data.power, attacker.attack, defender.defense),
        damage >= 1,
{
    let base_damage = move_data.power;
    let attack_stat = attacker.attack;
    let defense_stat = defender.defense;

    let damage = (base_damage * attack_stat) / (defense_stat + 50);
    if damage > 0 {
        damage
    } else {
        1
    }
}

/// The first rule a battle-creation request violates, or `None` when it must
/// succeed: the settled payment must reach the battle reward, the creator must
/// not already be in a battle, and the team must hold 1 to 6 cards.
pub open spec fn create_battle_error(
    game_state: GameState,
    player_state: PlayerState,
    team: Seq<u64>,
    payment_amount: u64,
) -> Option<ErrorCode> {
    if payment_amount < game_state.battle_reward {
        Some(ErrorCode::InsufficientPayment)
    } else if player_state.active_battle_id != 0 {
        Some(ErrorCode::PlayerAlreadyInBattle)
    } else if !(team.len() > 0 && team.len() <= 6) {
        Some(ErrorCode::InvalidTeamSize)
    } else {
        None
    }
}

/// `player` stands in `battle` as a participant of a not-yet-terminal battle,
/// and the player's registry record points at that battle.
pub open spec fn battle_entry(
    player_state: PlayerState,
    battle: Battle,
    player: PlayerId,
) -> bool {
    &&& player_state.active_battle_id == battle.battle_id
    &&& battle.player1 == player || battle.player2 == player
    &&& battle.status is Waiting || battle.status is Active
}

/// Open a battle for `player` with the given team. On success the battle id is
/// exactly the current global counter, the counter advances by one, the battle
/// waits for an opponent with the creator to move first, and the creator's
/// record is marked as being in this battle. On failure nothing changes.
pub fn create_battle(
    game_state: &mut GameState,
    player_state: &mut PlayerState,
    player: PlayerId,
    pokemon_token_ids: Vec<u64>,
    payment_amount: u64,
    now: i64,
) -> (result: Result<(Battle, BattleCreated), ErrorCode>)
    requires
        old(game_state).total_battles < u64::MAX,
    ensures
        create_battle_error(*old(game_state), *old(player_state), pokemon_token_ids@, payment_amount)
            matches Some(e) ==> ({
            &&& result == Err::<(Battle, BattleCreated), ErrorCode>(e)
            &&& *final(game_state) == *old(game_state)
            &&& *final(player_state) == *old(player_state)
        }),
        create_battle_error(*old(game_state), *old(player_state), pokemon_token_ids@, payment_amount)
            is None ==> ({
            &&& result is Ok
            &&& result->Ok_0.0 == (Battle {
                battle_id: old(game_state).total_battles,
                player1: player,
                player2: NO_PLAYER,
                player1_pokemon: pokemon_token_ids,
                player2_pokemon: result->Ok_0.0.player2_pokemon,
                status: BattleStatus::Waiting,
                turn_number: 0,
                current_player: player,
                created_at: now,
                finished_at: 0,
            })
            &&& result->Ok_0.0.player2_pokemon@ == Seq::<u64>::empty()
            &&& result->Ok_0.1 == (BattleCreated {
                battle_id: old(game_state).total_battles,
                player1: player,
                player2: NO_PLAYER,
            })
            &&& *final(game_state) == (GameState {
                total_battles: (old(game_state).total_battles + 1) as u64,
                ..*old(game_state)
            })
            &&& *final(player_state) == (PlayerState {
                active_battle_id: old(game_state).total_battles,
                ..*old(player_state)
            })
            &&& battle_entry(*final(player_state), result->Ok_0.0, player)
        }),
{
    if payment_amount < game_state.battle_reward {
        return Err(ErrorCode::InsufficientPayment);
    }
    if player_state.active_battle_id != 0 {
        return Err(ErrorCode::PlayerAlreadyInBattle);
    }
    let team_size = pokemon_token_ids.len();
    if !(team_size > 0 && team_size <= 6) {
        return Err(ErrorCode::InvalidTeamSize);
    }

    let battle = Battle {
        battle_id: game_state.total_battles,
        player1: player,
        player2: NO_PLAYER,
        player1_pokemon: pokemon_token_ids,
        player2_pokemon: Vec::new(),
        status: BattleStatus::Waiting,
        turn_number: 0,
        current_player: player,
        created_at: now,
        finished_at: 0,
    };
    let created = BattleCreated {
        battle_id: battle.battle_id,
        player1: battle.player1,
        player2: battle.player2,
    };

    player_state.active_battle_id = battle.battle_id;
    game_state.total_battles = game_state.total_battles + 1;

    Ok((battle, created))
}

/// The first rule a join request violates, or `None` when it must succeed:
/// the battle must still be waiting for an opponent, the joiner must not
/// already be in a battle, and the team must hold 1 to 6 cards.
pub open spec fn join_battle_error(
    battle: Battle,
    player_state: PlayerState,
    team: Seq<u64>,
) -> Option<ErrorCode> {
    if !(battle.status is Waiting) {
        Some(ErrorCode::BattleNotAvailable)
    } else if player_state.active_battle_id != 0 {
        Some(ErrorCode::PlayerAlreadyInBattle)
    } else if !(team.len() > 0 && team.len() <= 6) {
        Some(ErrorCode::InvalidTeamSize)
    } else {
        None
    }
}

/// Join a waiting battle as its second player. On success the battle becomes
/// Active with the joiner and their team recorded, the joiner's record is
/// marked as being in this battle, and both the joined and started
/// notifications are returned. On failure nothing changes.
pub fn join_battle(
    battle: &mut Battle,
    player_state: &mut PlayerState,
    player: PlayerId,
    pokemon_token_ids: Vec<u64>,
) -> (result: Result<(BattleJoined, BattleStarted), ErrorCode>)
    ensures
        join_battle_error(*old(battle), *old(player_state), pokemon_token_ids@)
            matches Some(e) ==> ({
            &&& result == Err::<(BattleJoined, BattleStarted), ErrorCode>(e)
            &&& *final(battle) == *old(battle)
            &&& *final(player_state) == *old(player_state)
        }),
        join_battle_error(*old(battle), *old(player_state), pokemon_token_ids@) is None ==> ({
            &&& result is Ok
            &&& *final(battle) == (Battle {
                player2: player,
                player2_pokemon: pokemon_token_ids,
                status: BattleStatus::Active,
                ..*old(battle)
            })
            &&& *final(player_state) == (PlayerState {
                active_battle_id: old(battle).battle_id,
                ..*old(player_state)
            })
            &&& result->Ok_0.0 == (BattleJoined { battle_id: old(battle).battle_id, player })
            &&& result->Ok_0.1 == (BattleStarted { battle_id: old(battle).battle_id })
            &&& battle_entry(*final(player_state), *final(battle), player)
        }),
{
    if !(battle.status == BattleStatus::Waiting) {
        return Err(ErrorCode::BattleNotAvailable);
    }
    if player_state.active_battle_id != 0 {
        return Err(ErrorCode::PlayerAlreadyInBattle);
    }
    let team_size = pokemon_token_ids.len();
    if !(team_size > 0 && team_size <= 6) {
        return Err(ErrorCode::InvalidTeamSize);
    }

    battle.player2 = player;
    battle.player2_pokemon = pokemon_token_ids;
    battle.status = BattleStatus::Active;
    player_state.active_battle_id = battle.battle_id;

    let joined = BattleJoined { battle_id: battle.battle_id, player };
    let started = BattleStarted { battle_id: battle.battle_id };
    Ok((joined, started))
}

/// The first rule a move request violates, or `None` when it must succeed:
/// the battle must be Active, the actor must hold the turn, the battle must
/// not have outlived its deadline, the move index must name one of the
/// attacker's moves, and the actor must have the energy the move costs.
pub open spec fn execute_move_error(
    game_state: GameState,
    battle: Battle,
    player_state: PlayerState,
    current_pokemon: PokemonCard,
    player: PlayerId,
    move_index: u8,
    now: i64,
) -> Option<ErrorCode> {
    if !(battle.status is Active) {
        Some(ErrorCode::BattleNotActive)
    } else if battle.current_player != player {
        Some(ErrorCode::NotYourTurn)
    } else if now > battle.created_at + game_state.max_battle_duration {
        Some(ErrorCode::BattleTimeout)
    } else if move_index as int >= current_pokemon.moves@.len() {
        Some(ErrorCode::InvalidMove)
    } else if player_state.energy < current_pokemon.moves@[move_index as int].energy_cost {
        Some(ErrorCode::InsufficientEnergy)
    } else {
        None
    }
}

/// Execute one move of the attacker's card against the defender's card.
/// On success the move's energy cost is debited from the actor, and the damage
/// notification is returned; if the damage reaches the defender's hit points
/// the battle is Finished with the actor as winner, otherwise the turn passes
/// to the other participant and the turn counter advances. On failure nothing
/// changes.
pub fn execute_move(
    game_state: &GameState,
    battle: &mut Battle,
    player_state: &mut PlayerState,
    current_pokemon: &PokemonCard,
    target_pokemon: &PokemonCard,
    player: PlayerId,
    move_index: u8,
    now: i64,
) -> (result: Result<(MoveExecuted, Option<BattleFinished>), ErrorCode>)
    requires
        game_state.max_battle_duration <= i64::MAX,
        old(battle).created_at + game_state.max_battle_duration <= i64::MAX,
        old(battle).turn_number < u64::MAX,
        (move_index as int) < current_pokemon.moves@.len() ==> current_pokemon.moves@[
            move_index as int].power * current_pokemon.attack <= u64::MAX,
        target_pokemon.defense <= u64::MAX - 50,
    ensures
        execute_move_error(
            *game_state, *old(battle), *old(player_state), *current_pokemon, player, move_index, now,
        ) matches Some(e) ==> ({
            &&& result == Err::<(MoveExecuted, Option<BattleFinished>), ErrorCode>(e)
            &&& *final(battle) == *old(battle)
            &&& *final(player_state) == *old(player_state)
        }),
        execute_move_error(
            *game_state, *old(battle), *old(player_state), *current_pokemon, player, move_index, now,
        ) is None ==> ({
            let chosen_move = current_pokemon.moves@[move_index as int];
            let damage = damage_value(chosen_move.power, current_pokemon.attack, target_pokemon.defense);
            &&& result is Ok
            &&& *final(player_state) == (PlayerState {
                energy: (old(player_state).energy - chosen_move.energy_cost) as u64,
                ..*old(player_state)
            })
            &&& result->Ok_0.0.battle_id == old(battle).battle_id
            &&& result->Ok_0.0.player == player
            &&& result->Ok_0.0.move_name == chosen_move.name
            &&& result->Ok_0.0.damage == damage
            &&& damage >= target_pokemon.hp ==> ({
                &&& *final(battle) == (Battle {
                    status: BattleStatus::Finished,
                    finished_at: now,
                    ..*old(battle)
                })
                &&& result->Ok_0.1 == Some(BattleFinished {
                    battle_id: old(battle).battle_id,
                    winner: player,
                })
            })
            &&& damage < target_pokemon.hp ==> ({
                &&& *final(battle) == (Battle {
                    current_player: if old(battle).current_player == old(battle).player1 {
                        old(battle).player2
                    } else {
                        old(battle).player1
                    },
                    turn_number: (old(battle).turn_number + 1) as u64,
                    ..*old(battle)
                })
                &&& result->Ok_0.1 is None
            })
        }),
{
    if !(battle.status == BattleStatus::Active) {
        return Err(ErrorCode::BattleNotActive);
    }
    if battle.current_player != player {
        return Err(ErrorCode::NotYourTurn);
    }
    let deadline: i64 = battle.created_at + (game_state.max_battle_duration as i64);
    if now > deadline {
        return Err(ErrorCode::BattleTimeout);
    }
    if move_index as usize >= current_pokemon.moves.len() {
        return Err(ErrorCode::InvalidMove);
    }
    let move_data = &current_pokemon.moves[move_index as usize];
    if player_state.energy < move_data.energy_cost {
        return Err(ErrorCode::InsufficientEnergy);
    }

    player_state.energy = player_state.energy - move_data.energy_cost;

    let damage = calculate_damage(current_pokemon, target_pokemon, move_data);
    let executed = MoveExecuted {
        battle_id: battle.battle_id,
        player,
        move_name: move_data.name.clone(),
        damage,
    };

    if damage >= target_pokemon.hp {
        battle.status = BattleStatus::Finished;
        battle.finished_at = now;
        let finished = BattleFinished { battle_id: battle.battle_id, winner: player };
        Ok((executed, Some(finished)))
    } else {
        battle.current_player = if battle.current_player == battle.player1 {
            battle.player2
        } else {
            battle.player1
        };
        battle.turn_number = battle.turn_number + 1;
        Ok((executed, None))
    }
}

} // verus!
