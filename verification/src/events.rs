//! The notifications that successful operations hand to observers.

use crate::accounts::GameType;
use anchor_lang::prelude::Pubkey;
use vstd::prelude::*;

verus! {

/// Funds of `player` arrived in custody.
#[derive(Clone, Copy, Debug, PartialEq, Eq)]
pub struct DepositEvent {
    pub player: Pubkey,
    pub amount: u64,
    pub timestamp: i64,
}

/// Funds left custody for `player`.
#[derive(Clone, Copy, Debug, PartialEq, Eq)]
pub struct WithdrawEvent {
    pub player: Pubkey,
    pub amount: u64,
    pub timestamp: i64,
}

/// `player` placed a wager: the stake has left the spendable balance.
#[derive(Clone, Copy, Debug, PartialEq, Eq)]
pub struct GameStartedEvent {
    pub player: Pubkey,
    pub game_type: GameType,
    pub bet_amount: u64,
    pub timestamp: i64,
}

/// A wager of `player` was settled.
#[derive(Clone, Copy, Debug, PartialEq, Eq)]
pub struct GameSettledEvent {
    pub player: Pubkey,
    pub amount: u64,
    pub won: bool,
    pub timestamp: i64,
}

} // verus!
