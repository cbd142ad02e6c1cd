//! The records that the ledger keeps, and the sets of records that each
//! operation is handed.

use anchor_lang::prelude::Pubkey;
use vstd::prelude::*;

verus! {

/// `anchor_lang::prelude::Pubkey`, the 32-byte address that identifies a
/// principal. The ledger stores and hands on such values and never looks
/// inside one, so nothing is claimed of it beyond its being a value.
#[verifier::external_type_specification]
#[verifier::external_body]
pub struct ExPubkey(Pubkey);

/// The pooled custody account of the platform. There is one per deployment.
#[derive(Clone, Copy, Debug, PartialEq, Eq)]
pub struct HouseState {
    /// Identity that may administer the house. Set when the house is opened
    /// and never changed afterwards.
    pub authority: Pubkey,
    /// Funds held in custody on behalf of all players.
    pub balance: u64,
}

/// The account of one player.
#[derive(Clone, Copy, Debug, PartialEq, Eq)]
pub struct PlayerState {
    /// Funds the player may wager or withdraw.
    pub balance: u64,
    /// Time of the last operation that succeeded on this account.
    pub last_played: i64,
}

/// The games a wager can be placed on.
#[derive(Clone, Copy, Debug, PartialEq, Eq, Structural)]
pub enum GameType {
    Blackjack,
    Roulette,
}

impl HouseState {
    /// Bytes a stored house record takes: the authority and the balance.
    pub const SIZE: usize = 32 + 8;

    /// The house as it is right after it has been opened for `authority`.
    pub open spec fn opened(authority: Pubkey) -> HouseState {
        HouseState { authority, balance: 0 }
    }
}

impl PlayerState {
    /// Bytes a stored player record takes: the balance and the time stamp.
    pub const SIZE: usize = 8 + 8;

    /// The account of a player who has never been seen.
    pub open spec fn fresh() -> PlayerState {
        PlayerState { balance: 0, last_played: 0 }
    }

    /// The account that an operation works on when the store holds `slot`
    /// for the player: the stored one, or a fresh one if there is none yet.
    pub open spec fn or_fresh(slot: Option<PlayerState>) -> PlayerState {
        match slot {
            Some(account) => account,
            None => PlayerState::fresh(),
        }
    }
}

/// What opening the house works on.
#[derive(Clone, Copy, Debug, PartialEq, Eq)]
pub struct InitializeHouse {
    /// The house record, `None` as long as the house has not been opened.
    pub house: Option<HouseState>,
    /// The caller, who becomes the authority of the house.
    pub authority: Pubkey,
}

/// What a deposit works on.
#[derive(Clone, Copy, Debug, PartialEq, Eq)]
pub struct Deposit {
    pub house: HouseState,
    /// The caller, whose funds arrive.
    pub player: Pubkey,
    /// The caller's account, `None` if this is the player's first deposit.
    pub player_state: Option<PlayerState>,
}

/// What a withdrawal works on.
#[derive(Clone, Copy, Debug, PartialEq, Eq)]
pub struct Withdraw {
    pub house: HouseState,
    /// The caller, who takes funds out.
    pub player: Pubkey,
    /// The caller's account, `None` if the player has none.
    pub player_state: Option<PlayerState>,
}

/// What placing a wager works on.
#[derive(Clone, Copy, Debug, PartialEq, Eq)]
pub struct PlayGame {
    pub house: HouseState,
    /// The caller, who stakes funds.
    pub player: Pubkey,
    /// The caller's account, `None` if the player has none.
    pub player_state: Option<PlayerState>,
}

/// What settling a wager works on.
#[derive(Clone, Copy, Debug, PartialEq, Eq)]
pub struct SettleGame {
    pub house: HouseState,
    /// The player whose wager is settled.
    pub player: Pubkey,
    /// That player's account, `None` if the player has none.
    pub player_state: Option<PlayerState>,
}

} // verus!
