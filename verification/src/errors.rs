use vstd::prelude::*;

verus! {

/// Every failure the engine can report. Failures are raised synchronously,
/// surfaced to the caller verbatim, and always abort the whole operation with
/// no partial writes.
#[derive(Clone, Copy, Debug, PartialEq, Eq, Structural)]
pub enum ErrorCode {
    InsufficientPayment,
    MaxCardsExceeded,
    PlayerAlreadyInBattle,
    InvalidTeamSize,
    BattleNotAvailable,
    BattleNotActive,
    NotYourTurn,
    BattleTimeout,
    InvalidMove,
    InsufficientEnergy,
    InvalidTradingOffer,
    OfferNotActive,
    OfferExpired,
    OfferNotTargetedToYou,
}

} // verus!
