//! The ledger as a whole: the house, every player account, and what the
//! operations do to the sum of them.
//!
//! The operations work on one player at a time. What is owed to all players
//! together is a statement about every account at once, so it is made here,
//! over a model of the whole ledger that is driven by the contracts of the
//! operations themselves.

use crate::accounts::{Deposit, GameType, HouseState, PlayGame, PlayerState, SettleGame, Withdraw};
use crate::operations::{
    deposit_applied, deposit_rejection, payout, settle_applied, settle_rejection, wager_applied,
    wager_rejection, withdraw_applied, withdraw_rejection,
};
use anchor_lang::prelude::Pubkey;
use vstd::prelude::*;

verus! {

/// A request that a player's transaction makes of the ledger.
pub enum Request {
    Deposit { player: Pubkey, amount: u64, timestamp: i64 },
    Withdraw { player: Pubkey, amount: u64, timestamp: i64 },
    PlaceWager { player: Pubkey, kind: GameType, stake: u64, timestamp: i64 },
    SettleWager { player: Pubkey, amount: u64, won: bool, timestamp: i64 },
}

/// The whole ledger between two transactions.
pub struct Book {
    /// The custody account.
    pub house: HouseState,
    /// The account of every player who has one.
    pub players: Map<Pubkey, PlayerState>,
    /// The sum of all stakes that have left a player's balance so far.
    pub staked: nat,
    /// The sum of all payouts that settlements have credited so far.
    pub paid: nat,
}

/// The sum of the balances of all accounts in `players`.
pub open spec fn total_balance(players: Map<Pubkey, PlayerState>) -> nat
    decreases players.dom().len(),
    when players.dom().finite()
{
    if players.dom().is_empty() {
        0
    } else {
        let player = players.dom().choose();
        players[player].balance as nat + total_balance(players.remove(player))
    }
}

impl Request {
    /// The player whose account the request works on.
    pub open spec fn player(self) -> Pubkey {
        match self {
            Request::Deposit { player, .. } => player,
            Request::Withdraw { player, .. } => player,
            Request::PlaceWager { player, .. } => player,
            Request::SettleWager { player, .. } => player,
        }
    }

    /// Whether the request, if it is accepted, leaves the stakes at risk and
    /// the payouts as they are: deposits and withdrawals do, a wager only if
    /// nothing is staked, a settlement only if it pays nothing.
    pub open spec fn moves_custody_only(self) -> bool {
        match self {
            Request::Deposit { .. } => true,
            Request::Withdraw { .. } => true,
            Request::PlaceWager { stake, .. } => stake == 0,
            Request::SettleWager { amount, won, .. } => payout(amount, won) == 0,
        }
    }
}

impl Book {
    /// The ledger right after the house has been opened for `authority`.
    pub open spec fn opened(authority: Pubkey) -> Book {
        Book { house: HouseState::opened(authority), players: Map::empty(), staked: 0, paid: 0 }
    }

    /// What the store holds for `player`.
    pub open spec fn slot(self, player: Pubkey) -> Option<PlayerState> {
        if self.players.dom().contains(player) {
            Some(self.players[player])
        } else {
            None
        }
    }

    /// What all players together may wager or withdraw.
    pub open spec fn spendable(self) -> nat {
        total_balance(self.players)
    }

    /// The accounting identity of the ledger: custody and all payouts made
    /// equal the players' balances and all stakes placed.
    pub open spec fn balanced(self) -> bool {
        &&& self.players.dom().finite()
        &&& self.house.balance + self.paid == self.spendable() + self.staked
    }

    /// The ledger with `house` and with `slot` stored for `player`.
    pub open spec fn stored(
        self,
        house: HouseState,
        player: Pubkey,
        slot: Option<PlayerState>,
    ) -> Book {
        Book {
            house,
            players: match slot {
                Some(account) => self.players.insert(player, account),
                None => self.players,
            },
            staked: self.staked,
            paid: self.paid,
        }
    }

    /// The ledger after `request`. The request is handed the house and the
    /// account of its player, and what the operation leaves is stored again.
    /// A request that is rejected leaves the ledger as it was.
    pub open spec fn after(self, request: Request) -> Book {
        match request {
            Request::Deposit { player, amount, timestamp } => {
                let ctx = Deposit { house: self.house, player, player_state: self.slot(player) };
                if deposit_rejection(ctx, amount) is Some {
                    self
                } else {
                    let done = deposit_applied(ctx, amount, timestamp);
                    self.stored(done.house, player, done.player_state)
                }
            },
            Request::Withdraw { player, amount, timestamp } => {
                let ctx = Withdraw { house: self.house, player, player_state: self.slot(player) };
                if withdraw_rejection(ctx, amount) is Some {
                    self
                } else {
                    let done = withdraw_applied(ctx, amount, timestamp);
                    self.stored(done.house, player, done.player_state)
                }
            },
            Request::PlaceWager { player, stake, timestamp, .. } => {
                let ctx = PlayGame { house: self.house, player, player_state: self.slot(player) };
                if wager_rejection(ctx, stake) is Some {
                    self
                } else {
                    let done = wager_applied(ctx, stake, timestamp);
                    Book {
                        staked: self.staked + stake as nat,
                        ..self.stored(done.house, player, done.player_state)
                    }
                }
            },
            Request::SettleWager { player, amount, won, timestamp } => {
                let ctx = SettleGame { house: self.house, player, player_state: self.slot(player) };
                if settle_rejection(ctx, amount, won) is Some {
                    self
                } else {
                    let done = settle_applied(ctx, amount, won, timestamp);
                    Book {
                        paid: self.paid + payout(amount, won),
                        ..self.stored(done.house, player, done.player_state)
                    }
                }
            },
        }
    }

    /// The ledger after all of `requests`, one after the other.
    pub open spec fn after_all(self, requests: Seq<Request>) -> Book
        decreases requests.len(),
    {
        if requests.len() == 0 {
            self
        } else {
            self.after_all(requests.drop_last()).after(requests.last())
        }
    }
}

/// The sum of all balances is the balance of any one account plus the sum
/// of the others.
pub proof fn lemma_total_balance_remove(players: Map<Pubkey, PlayerState>, player: Pubkey)
    requires
        players.dom().finite(),
        players.dom().contains(player),
    ensures
        total_balance(players) == players[player].balance + total_balance(players.remove(player)),
    decreases players.dom().len(),
{
    let first = players.dom().choose();
    if first != player {
        lemma_total_balance_remove(players.remove(first), player);
        lemma_total_balance_remove(players.remove(player), first);
        assert(players.remove(first).remove(player) =~= players.remove(player).remove(first));
    }
}

/// Storing an account changes the sum of all balances by the difference
/// between the new balance and the one that was stored before, if any.
pub proof fn lemma_total_balance_insert(
    players: Map<Pubkey, PlayerState>,
    player: Pubkey,
    account: PlayerState,
)
    requires
        players.dom().finite(),
    ensures
        total_balance(players.insert(player, account)) + (if players.dom().contains(player) {
            players[player].balance as int
        } else {
            0
        }) == total_balance(players) + account.balance,
{
    let updated = players.insert(player, account);
    lemma_total_balance_remove(updated, player);
    if players.dom().contains(player) {
        lemma_total_balance_remove(players, player);
        assert(updated.remove(player) =~= players.remove(player));
    } else {
        assert(updated.remove(player) =~= players);
    }
}

/// A request works on the account of its own player and on no other: what
/// the store holds for anybody else is the same before and after.
pub proof fn lemma_request_touches_one_account(book: Book, request: Request, other: Pubkey)
    requires
        other != request.player(),
    ensures
        book.after(request).slot(other) == book.slot(other),
{
}

/// No request breaks the accounting identity: a ledger that is balanced
/// before a request is balanced after it, whether the request is accepted
/// or not. The authority of the house stays who it was.
pub proof fn lemma_request_keeps_balance(book: Book, request: Request)
    requires
        book.balanced(),
    ensures
        book.after(request).balanced(),
        book.after(request).house.authority == book.house.authority,
        book.after(request).staked >= book.staked,
        book.after(request).paid >= book.paid,
        request.moves_custody_only() ==> book.after(request).staked == book.staked
            && book.after(request).paid == book.paid,
{
    match request {
        Request::Deposit { player, amount, timestamp } => {
            let ctx = Deposit { house: book.house, player, player_state: book.slot(player) };
            if deposit_rejection(ctx, amount) is None {
                let done = deposit_applied(ctx, amount, timestamp);
                lemma_total_balance_insert(book.players, player, done.player_state->0);
            }
        },
        Request::Withdraw { player, amount, timestamp } => {
            let ctx = Withdraw { house: book.house, player, player_state: book.slot(player) };
            if withdraw_rejection(ctx, amount) is None {
                let done = withdraw_applied(ctx, amount, timestamp);
                lemma_total_balance_insert(book.players, player, done.player_state->0);
            }
        },
        Request::PlaceWager { player, stake, timestamp, .. } => {
            let ctx = PlayGame { house: book.house, player, player_state: book.slot(player) };
            if wager_rejection(ctx, stake) is None {
                let done = wager_applied(ctx, stake, timestamp);
                lemma_total_balance_insert(book.players, player, done.player_state->0);
            }
        },
        Request::SettleWager { player, amount, won, timestamp } => {
            let ctx = SettleGame { house: book.house, player, player_state: book.slot(player) };
            if settle_rejection(ctx, amount, won) is None {
                let done = settle_applied(ctx, amount, won, timestamp);
                lemma_total_balance_insert(book.players, player, done.player_state->0);
            }
        },
    }
}

/// In every state that the ledger can reach from the opening of the house,
/// custody plus all payouts made equals the players' balances plus all
/// stakes placed, and the authority of the house is the one it was opened
/// for.
pub proof fn lemma_reachable_is_balanced(authority: Pubkey, requests: Seq<Request>)
    ensures
        Book::opened(authority).after_all(requests).balanced(),
        Book::opened(authority).after_all(requests).house.authority == authority,
    decreases requests.len(),
{
    if requests.len() == 0 {
        assert(Book::opened(authority).players.dom() =~= Set::<Pubkey>::empty());
    } else {
        lemma_reachable_is_balanced(authority, requests.drop_last());
        lemma_request_keeps_balance(
            Book::opened(authority).after_all(requests.drop_last()),
            requests.last(),
        );
    }
}

/// In a state that the ledger can reach, custody equals the sum of the
/// players' balances exactly when the payouts made so far equal the stakes
/// placed so far.
pub proof fn lemma_custody_matches_players(authority: Pubkey, requests: Seq<Request>)
    ensures
        ({
            let book = Book::opened(authority).after_all(requests);
            book.house.balance == book.spendable() <==> book.staked == book.paid
        }),
{
    lemma_reachable_is_balanced(authority, requests);
}

/// As long as no stake has been put at risk and no settlement has paid
/// anything, custody equals the sum of the players' balances.
pub proof fn lemma_custody_without_wagers(authority: Pubkey, requests: Seq<Request>)
    requires
        forall|i: int| 0 <= i < requests.len() ==> (#[trigger] requests[i]).moves_custody_only(),
    ensures
        ({
            let book = Book::opened(authority).after_all(requests);
            &&& book.staked == 0
            &&& book.paid == 0
            &&& book.house.balance == book.spendable()
        }),
    decreases requests.len(),
{
    lemma_reachable_is_balanced(authority, requests);
    if requests.len() > 0 {
        let earlier = requests.drop_last();
        assert forall|i: int| 0 <= i < earlier.len() implies #[trigger] earlier[i]
            .moves_custody_only() by {
            assert(earlier[i] == requests[i]);
        }
        lemma_custody_without_wagers(authority, earlier);
        lemma_reachable_is_balanced(authority, earlier);
        lemma_request_keeps_balance(Book::opened(authority).after_all(earlier), requests.last());
    }
}

} // verus!
