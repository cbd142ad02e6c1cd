//! The operations that move balances.
//!
//! Each operation works on the records it is handed and either succeeds,
//! changing them as its contract says and returning the event to emit, or is
//! rejected and changes nothing. Moving the funds themselves, reading the
//! clock and emitting the event are the caller's part: an operation is told
//! the time and records what the caller has done or will do in the same
//! transaction.

use crate::accounts::{
    Deposit, GameType, HouseState, InitializeHouse, PlayGame, PlayerState, SettleGame, Withdraw,
};
use crate::error::ErrorCode;
use crate::events::{DepositEvent, GameSettledEvent, GameStartedEvent, WithdrawEvent};
use vstd::prelude::*;

verus! {

/// Why a deposit of `amount` into `ctx` is rejected, if it is.
///
/// A deposit must be positive, and neither the custody balance nor the
/// player's balance may grow beyond `u64::MAX`.
pub open spec fn deposit_rejection(ctx: Deposit, amount: u64) -> Option<ErrorCode> {
    if amount == 0 {
        Some(ErrorCode::InvalidAmount)
    } else if ctx.house.balance + amount > u64::MAX {
        Some(ErrorCode::ArithmeticOverflow)
    } else if PlayerState::or_fresh(ctx.player_state).balance + amount > u64::MAX {
        Some(ErrorCode::ArithmeticOverflow)
    } else {
        None
    }
}

/// The records after a deposit of `amount` at `timestamp` that is not
/// rejected: custody and the player's balance both grow by `amount`, and a
/// player without an account has one from now on.
pub open spec fn deposit_applied(ctx: Deposit, amount: u64, timestamp: i64) -> Deposit {
    Deposit {
        house: HouseState {
            authority: ctx.house.authority,
            balance: (ctx.house.balance + amount) as u64,
        },
        player: ctx.player,
        player_state: Some(
            PlayerState {
                balance: (PlayerState::or_fresh(ctx.player_state).balance + amount) as u64,
                last_played: timestamp,
            },
        ),
    }
}

/// Records that `amount` of the player's funds arrives in custody.
///
/// The caller moves the funds in the same transaction and keeps what this
/// leaves only if that succeeded.
pub fn deposit(ctx: &mut Deposit, amount: u64, timestamp: i64) -> (res: Result<
    DepositEvent,
    ErrorCode,
>)
    ensures
        match deposit_rejection(*old(ctx), amount) {
            Some(code) => res == Err::<DepositEvent, ErrorCode>(code) && *final(ctx) == *old(ctx),
            None => res == Ok::<DepositEvent, ErrorCode>(
                DepositEvent { player: old(ctx).player, amount, timestamp },
            ) && *final(ctx) == deposit_applied(*old(ctx), amount, timestamp),
        },
        res is Ok ==> final(ctx).house.balance == old(ctx).house.balance + amount,
        res is Ok ==> (final(ctx).player_state matches Some(account) && account.balance
            == PlayerState::or_fresh(old(ctx).player_state).balance + amount),
{
    if amount == 0 {
        return Err(ErrorCode::InvalidAmount);
    }
    let account = match ctx.player_state {
        Some(account) => account,
        None => PlayerState { balance: 0, last_played: 0 },
    };
    let custody: u64 = match ctx.house.balance.checked_add(amount) {
        Some(sum) => sum,
        None => {
            return Err(ErrorCode::ArithmeticOverflow);
        },
    };
    let spendable: u64 = match account.balance.checked_add(amount) {
        Some(sum) => sum,
        None => {
            return Err(ErrorCode::ArithmeticOverflow);
        },
    };
    ctx.house.balance = custody;
    ctx.player_state = Some(PlayerState { balance: spendable, last_played: timestamp });
    Ok(DepositEvent { player: ctx.player, amount, timestamp })
}

/// Why a withdrawal of `amount` from `ctx` is rejected, if it is.
///
/// The player needs an account that holds at least `amount`, and custody
/// must hold at least `amount` too.
pub open spec fn withdraw_rejection(ctx: Withdraw, amount: u64) -> Option<ErrorCode> {
    match ctx.player_state {
        None => Some(ErrorCode::AccountNotFound),
        Some(account) => if account.balance < amount {
            Some(ErrorCode::InsufficientFunds)
        } else if ctx.house.balance < amount {
            Some(ErrorCode::ArithmeticUnderflow)
        } else {
            None
        },
    }
}

/// The records after a withdrawal of `amount` at `timestamp` that is not
/// rejected: custody and the player's balance both shrink by `amount`.
pub open spec fn withdraw_applied(ctx: Withdraw, amount: u64, timestamp: i64) -> Withdraw {
    Withdraw {
        house: HouseState {
            authority: ctx.house.authority,
            balance: (ctx.house.balance - amount) as u64,
        },
        player: ctx.player,
        player_state: Some(
            PlayerState {
                balance: (PlayerState::or_fresh(ctx.player_state).balance - amount) as u64,
                last_played: timestamp,
            },
        ),
    }
}

/// Records that `amount` leaves custody for the player.
///
/// The caller moves the funds in the same transaction, and only if this
/// succeeded. Custody can hold less than a player may spend once winnings
/// have been credited, so the withdrawal is held against both balances.
pub fn withdraw(ctx: &mut Withdraw, amount: u64, timestamp: i64) -> (res: Result<
    WithdrawEvent,
    ErrorCode,
>)
    ensures
        match withdraw_rejection(*old(ctx), amount) {
            Some(code) => res == Err::<WithdrawEvent, ErrorCode>(code) && *final(ctx) == *old(ctx),
            None => res == Ok::<WithdrawEvent, ErrorCode>(
                WithdrawEvent { player: old(ctx).player, amount, timestamp },
            ) && *final(ctx) == withdraw_applied(*old(ctx), amount, timestamp),
        },
        old(ctx).player_state matches Some(account) ==> (amount > account.balance ==> res == Err::<
            WithdrawEvent,
            ErrorCode,
        >(ErrorCode::InsufficientFunds)),
        res is Ok ==> final(ctx).house.balance == old(ctx).house.balance - amount,
        res is Ok ==> (final(ctx).player_state matches Some(account) && account.balance
            == old(ctx).player_state->0.balance - amount),
{
    let account = match ctx.player_state {
        Some(account) => account,
        None => {
            return Err(ErrorCode::AccountNotFound);
        },
    };
    let spendable: u64 = match account.balance.checked_sub(amount) {
        Some(rest) => rest,
        None => {
            return Err(ErrorCode::InsufficientFunds);
        },
    };
    let custody: u64 = match ctx.house.balance.checked_sub(amount) {
        Some(rest) => rest,
        None => {
            return Err(ErrorCode::ArithmeticUnderflow);
        },
    };
    ctx.house.balance = custody;
    ctx.player_state = Some(PlayerState { balance: spendable, last_played: timestamp });
    Ok(WithdrawEvent { player: ctx.player, amount, timestamp })
}

/// What a settlement credits to the player: twice the amount of a wager
/// that was won, nothing for one that was lost.
pub open spec fn payout(amount: u64, won: bool) -> nat {
    if won {
        2 * (amount as nat)
    } else {
        0
    }
}

/// Why the settlement of a wager of `amount` on `ctx` is rejected, if it
/// is.
///
/// The player needs an account, and the balance with the payout added must
/// not exceed `u64::MAX`. The settlement is not held against any wager that
/// was placed before.
pub open spec fn settle_rejection(ctx: SettleGame, amount: u64, won: bool) -> Option<ErrorCode> {
    match ctx.player_state {
        None => Some(ErrorCode::AccountNotFound),
        Some(account) => if account.balance + payout(amount, won) > u64::MAX {
            Some(ErrorCode::ArithmeticOverflow)
        } else {
            None
        },
    }
}

/// The records after a settlement at `timestamp` that is not rejected: the
/// player's balance grows by the payout, and custody stays as it is.
pub open spec fn settle_applied(
    ctx: SettleGame,
    amount: u64,
    won: bool,
    timestamp: i64,
) -> SettleGame {
    SettleGame {
        house: ctx.house,
        player: ctx.player,
        player_state: Some(
            PlayerState {
                balance: (PlayerState::or_fresh(ctx.player_state).balance + payout(
                    amount,
                    won,
                )) as u64,
                last_played: timestamp,
            },
        ),
    }
}

/// Settles a wager of `amount` with the outcome `won`, which the caller
/// has from whoever decides the game.
pub fn settle_game(ctx: &mut SettleGame, amount: u64, won: bool, timestamp: i64) -> (res: Result<
    GameSettledEvent,
    ErrorCode,
>)
    ensures
        match settle_rejection(*old(ctx), amount, won) {
            Some(code) => res == Err::<GameSettledEvent, ErrorCode>(code) && *final(ctx) == *old(
                ctx,
            ),
            None => res == Ok::<GameSettledEvent, ErrorCode>(
                GameSettledEvent { player: old(ctx).player, amount, won, timestamp },
            ) && *final(ctx) == settle_applied(*old(ctx), amount, won, timestamp),
        },
        final(ctx).house == old(ctx).house,
        res is Ok ==> (final(ctx).player_state matches Some(account) && account.balance
            == old(ctx).player_state->0.balance + payout(amount, won)),
{
    let account = match ctx.player_state {
        Some(account) => account,
        None => {
            return Err(ErrorCode::AccountNotFound);
        },
    };
    let mut spendable: u64 = account.balance;
    if won {
        let winnings: u64 = match amount.checked_mul(2) {
            Some(product) => product,
            None => {
                return Err(ErrorCode::ArithmeticOverflow);
            },
        };
        spendable = match account.balance.checked_add(winnings) {
            Some(sum) => sum,
            None => {
                return Err(ErrorCode::ArithmeticOverflow);
            },
        };
    }
    ctx.player_state = Some(PlayerState { balance: spendable, last_played: timestamp });
    Ok(GameSettledEvent { player: ctx.player, amount, won, timestamp })
}

/// Why a wager of `stake` on `ctx` is rejected, if it is.
///
/// The player needs an account that holds at least `stake`.
pub open spec fn wager_rejection(ctx: PlayGame, stake: u64) -> Option<ErrorCode> {
    match ctx.player_state {
        None => Some(ErrorCode::AccountNotFound),
        Some(account) => if account.balance < stake {
            Some(ErrorCode::InsufficientFunds)
        } else {
            None
        },
    }
}

/// The records after a wager of `stake` placed at `timestamp` that is not
/// rejected: the stake has left the player's balance, and custody stays as
/// it is.
pub open spec fn wager_applied(ctx: PlayGame, stake: u64, timestamp: i64) -> PlayGame {
    PlayGame {
        house: ctx.house,
        player: ctx.player,
        player_state: Some(
            PlayerState {
                balance: (PlayerState::or_fresh(ctx.player_state).balance - stake) as u64,
                last_played: timestamp,
            },
        ),
    }
}

/// Places a wager of `stake` on a game of `kind`: the stake leaves the
/// player's spendable balance and is at risk until the wager is settled.
pub fn place_wager(ctx: &mut PlayGame, kind: GameType, stake: u64, timestamp: i64) -> (res: Result<
    GameStartedEvent,
    ErrorCode,
>)
    ensures
        match wager_rejection(*old(ctx), stake) {
            Some(code) => res == Err::<GameStartedEvent, ErrorCode>(code) && *final(ctx) == *old(
                ctx,
            ),
            None => res == Ok::<GameStartedEvent, ErrorCode>(
                GameStartedEvent {
                    player: old(ctx).player,
                    game_type: kind,
                    bet_amount: stake,
                    timestamp,
                },
            ) && *final(ctx) == wager_applied(*old(ctx), stake, timestamp),
        },
        final(ctx).house == old(ctx).house,
        res is Ok ==> (final(ctx).player_state matches Some(account) && account.balance
            == old(ctx).player_state->0.balance - stake),
{
    let account = match ctx.player_state {
        Some(account) => account,
        None => {
            return Err(ErrorCode::AccountNotFound);
        },
    };
    let spendable: u64 = match account.balance.checked_sub(stake) {
        Some(rest) => rest,
        None => {
            return Err(ErrorCode::InsufficientFunds);
        },
    };
    ctx.player_state = Some(PlayerState { balance: spendable, last_played: timestamp });
    Ok(GameStartedEvent { player: ctx.player, game_type: kind, bet_amount: stake, timestamp })
}

/// Places a wager of `bet_amount` on a game of blackjack.
pub fn play_blackjack(ctx: &mut PlayGame, bet_amount: u64, timestamp: i64) -> (res: Result<
    GameStartedEvent,
    ErrorCode,
>)
    ensures
        match wager_rejection(*old(ctx), bet_amount) {
            Some(code) => res == Err::<GameStartedEvent, ErrorCode>(code) && *final(ctx) == *old(
                ctx,
            ),
            None => res == Ok::<GameStartedEvent, ErrorCode>(
                GameStartedEvent {
                    player: old(ctx).player,
                    game_type: GameType::Blackjack,
                    bet_amount,
                    timestamp,
                },
            ) && *final(ctx) == wager_applied(*old(ctx), bet_amount, timestamp),
        },
{
    place_wager(ctx, GameType::Blackjack, bet_amount, timestamp)
}

/// Opens the house for the caller, who becomes its authority. The house
/// starts with nothing in custody, and it can be opened only once.
pub fn initialize_house(ctx: &mut InitializeHouse) -> (res: Result<(), ErrorCode>)
    ensures
        final(ctx).authority == old(ctx).authority,
        match old(ctx).house {
            Some(_) => res == Err::<(), ErrorCode>(ErrorCode::AlreadyInitialized) && *final(ctx)
                == *old(ctx),
            None => res == Ok::<(), ErrorCode>(()) && final(ctx).house == Some(
                HouseState::opened(old(ctx).authority),
            ),
        },
{
    if ctx.house.is_some() {
        return Err(ErrorCode::AlreadyInitialized);
    }
    ctx.house = Some(HouseState { authority: ctx.authority, balance: 0 });
    Ok(())
}

/// A deposit followed at once by a withdrawal of the same amount is never
/// rejected and leaves the house and the player's balance as they were
/// before the deposit. A player who had no account has an empty one then.
pub proof fn lemma_deposit_then_withdraw(
    ctx: Deposit,
    amount: u64,
    deposited_at: i64,
    withdrawn_at: i64,
)
    requires
        deposit_rejection(ctx, amount) is None,
    ensures
        ({
            let funded = deposit_applied(ctx, amount, deposited_at);
            let back = Withdraw {
                house: funded.house,
                player: funded.player,
                player_state: funded.player_state,
            };
            &&& withdraw_rejection(back, amount) is None
            &&& withdraw_applied(back, amount, withdrawn_at).house == ctx.house
            &&& withdraw_applied(back, amount, withdrawn_at).player == ctx.player
            &&& withdraw_applied(back, amount, withdrawn_at).player_state == Some(
                PlayerState {
                    balance: PlayerState::or_fresh(ctx.player_state).balance,
                    last_played: withdrawn_at,
                },
            )
        }),
{
}

/// A wager that is placed and then settled for its stake leaves the player
/// with the stake gained if it was won and with the stake lost if it was
/// not, unless the winnings no longer fit the balance. Custody is the same
/// in either case.
pub proof fn lemma_wager_then_settlement(
    ctx: PlayGame,
    stake: u64,
    won: bool,
    placed_at: i64,
    settled_at: i64,
)
    requires
        wager_rejection(ctx, stake) is None,
    ensures
        ({
            let placed = wager_applied(ctx, stake, placed_at);
            let open = SettleGame {
                house: placed.house,
                player: placed.player,
                player_state: placed.player_state,
            };
            let before = ctx.player_state->0.balance;
            &&& settle_rejection(open, stake, won) is Some <==> won && before + stake > u64::MAX
            &&& settle_rejection(open, stake, won) is None ==> settle_applied(
                open,
                stake,
                won,
                settled_at,
            ) == (SettleGame {
                house: ctx.house,
                player: ctx.player,
                player_state: Some(
                    PlayerState {
                        balance: (if won {
                            before + stake
                        } else {
                            before - stake
                        }) as u64,
                        last_played: settled_at,
                    },
                ),
            })
        }),
{
}

} // verus!
