//! Bookkeeping core of a custodial wagering ledger.
//!
//! The ledger holds the funds of all players in one custody account, the
//! house, and keeps a balance for each player. Players deposit and withdraw;
//! placing a wager takes the stake out of the player's balance, and settling
//! it credits the payout. Every operation is checked arithmetic on the
//! records it is handed: it either applies as a whole or is rejected and
//! changes nothing.
//!
//! [`operations`] holds the operations, [`accounts`], [`events`] and
//! [`error`] the values they work on and return, and [`custody`] what holds
//! of the house and all player accounts together.

pub mod accounts;
pub mod custody;
pub mod error;
pub mod events;
pub mod operations;

pub use accounts::{
    Deposit, GameType, HouseState, InitializeHouse, PlayGame, PlayerState, SettleGame, Withdraw,
};
pub use error::ErrorCode;
pub use events::{DepositEvent, GameSettledEvent, GameStartedEvent, WithdrawEvent};
pub use operations::{
    deposit, initialize_house, place_wager, play_blackjack, settle_game, withdraw,
};
