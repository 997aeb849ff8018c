//! What holds of every round, every wallet and every whitelist pass at all times.
//!
//! The operations work on the records that they are handed. Here all rounds, all
//! wallets' accounts in them and the conversion records of all whitelist passes
//! stand together under their keys, an operation is applied to the records that
//! its keys select, and what is consistent stays consistent whatever operation
//! comes next.

use vstd::prelude::*;
use crate::address::Address;
use crate::edition::MasterSupply;
use crate::instructions::bond::buy::BuyBond;
use crate::instructions::bond::convert::ConvertBond;
use crate::instructions::bond::sell::SellBond;
use crate::instructions::initialize::{initial_strategy, Parameters};
use crate::instructions::invest::Invest;
use crate::instructions::minting_round::buy::BuySolxr;
use crate::instructions::minting_round::close::CloseMintingRound;
use crate::instructions::minting_round::open::OpenMintingRound;
use crate::instructions::whitelist::buy::BuyWhitelist;
use crate::instructions::whitelist::convert::ConvertWhitelist;
use crate::instructions::whitelist::sell::SellWhitelist;
use crate::state::bonds::Bond;
use crate::state::mint_round::{AssociatedRoundAccount, MintRound};
use crate::state::sol_strategy::SolStrategy;
use crate::state::whitelists::{Whitelist, WhitelistNFTRecord};

verus! {

/// The global record, every round under its id, every wallet's account in a
/// round under the round's id and the wallet, and the conversion record of every
/// whitelist pass under the offering's address and the pass's number.
pub struct Book {
    /// The global record.
    pub strategy: SolStrategy,
    /// The rounds, by id.
    pub rounds: Map<u64, MintRound>,
    /// The wallets' accounts, by round id and wallet.
    pub accounts: Map<(u64, Address), AssociatedRoundAccount>,
    /// The conversion records, by the offering's address and the pass's number.
    pub passes: Map<(Address, u64), WhitelistNFTRecord>,
}

/// One call of an operation, with everything that the call brings. The rounds,
/// the accounts in them and the conversion records are selected from the book by
/// the call's keys; the other records come with the call, and of those the book
/// replaces the global one by its own.
pub enum Call {
    /// The caller opens round `id` at `market_value`.
    Open { caller: Address, id: u64, market_value: u64, now: u64, token_supply: u64 },
    /// The caller closes the open round.
    Close { caller: Address },
    /// The wallet buys for `amount` in round `id`, and names the account that is
    /// to receive the fee.
    Buy { wallet: Address, platform_address: Address, id: u64, amount: u64, now: u64 },
    /// A deposit of `amount`.
    Invest { ctx: Invest, amount: u64 },
    /// The sale of the offering `bond`.
    SellBond { ctx: SellBond, bond: Bond },
    /// The purchase of a bond, given the state of the offering's master edition.
    BuyBond { ctx: BuyBond, now: u64, master: Option<MasterSupply> },
    /// The redemption of a bond.
    ConvertBond { ctx: ConvertBond, convert: bool, now: u64 },
    /// The sale of the offering `whitelist`.
    SellWhitelist { ctx: SellWhitelist, whitelist: Whitelist },
    /// The purchase of a whitelist pass, given the state of the offering's master
    /// edition.
    BuyWhitelist { ctx: BuyWhitelist, now: u64, master: Option<MasterSupply> },
    /// The conversion of the pass numbered `edition` of the offering kept under
    /// `collection`, of which the holder's account holds `unit_balance` units.
    ConvertWhitelist {
        collection: Address,
        edition: u64,
        whitelist: Whitelist,
        unit_balance: u64,
        now: u64,
    },
}

impl Book {
    /// The record of round `id`: a record that was never written holds zeros.
    pub open spec fn round(self, id: u64) -> MintRound {
        if self.rounds.dom().contains(id) {
            self.rounds[id]
        } else {
            MintRound {
                premium: 0,
                max_mint_per_wallet: 0,
                solxr_minted: 0,
                solxr_available: 0,
                start: 0,
            }
        }
    }

    /// The account of `wallet` in round `id`: an account that was never written
    /// holds zero.
    pub open spec fn account(self, id: u64, wallet: Address) -> AssociatedRoundAccount {
        if self.accounts.dom().contains((id, wallet)) {
            self.accounts[(id, wallet)]
        } else {
            AssociatedRoundAccount { amount_minted: 0 }
        }
    }

    /// The conversion record of the pass numbered `edition` of the offering kept
    /// under `collection`: a record that was never written says "not converted".
    pub open spec fn pass(self, collection: Address, edition: u64) -> WhitelistNFTRecord {
        if self.passes.dom().contains((collection, edition)) {
            self.passes[(collection, edition)]
        } else {
            WhitelistNFTRecord { converted: false }
        }
    }

    /// The book of a protocol that has just been set up: no round, no account, no
    /// pass.
    pub open spec fn initial(
        initial_pool_cap: u64,
        individual_address_cap: u64,
        parameters: Parameters,
    ) -> Book {
        Book {
            strategy: initial_strategy(initial_pool_cap, individual_address_cap, parameters),
            rounds: Map::empty(),
            accounts: Map::empty(),
            passes: Map::empty(),
        }
    }

    /// The book after a call: the operation works on the records that the call's
    /// keys select, and a refused call changes nothing.
    pub open spec fn apply(self, call: Call) -> Book {
        match call {
            Call::Open { caller, id, market_value, now, token_supply } => {
                let ctx = OpenMintingRound {
                    governance_authority: caller,
                    sol_strategy: self.strategy,
                    mint_round: self.round(id),
                    token_supply,
                };
                match ctx.opening(id, market_value) {
                    Ok(quota) => {
                        let after = ctx.opened(market_value, quota, now);
                        Book {
                            strategy: after.sol_strategy,
                            rounds: self.rounds.insert(id, after.mint_round),
                            ..self
                        }
                    },
                    Err(_) => self,
                }
            },
            Call::Close { caller } => {
                let ctx = CloseMintingRound {
                    governance_authority: caller,
                    sol_strategy: self.strategy,
                };
                if ctx.refusal() is None {
                    Book { strategy: ctx.closed().sol_strategy, ..self }
                } else {
                    self
                }
            },
            Call::Buy { wallet, platform_address, id, amount, now } => {
                let ctx = BuySolxr {
                    sol_strategy: self.strategy,
                    mint_round: self.round(id),
                    associated_round_account: self.account(id, wallet),
                    platform_address,
                };
                match ctx.purchase(id, amount, now) {
                    Ok(purchase) => {
                        let after = ctx.bought(amount, purchase.solxr_minted);
                        Book {
                            strategy: after.sol_strategy,
                            rounds: self.rounds.insert(id, after.mint_round),
                            accounts: self.accounts.insert(
                                (id, wallet),
                                after.associated_round_account,
                            ),
                            ..self
                        }
                    },
                    Err(_) => self,
                }
            },
            Call::Invest { ctx, amount } => {
                let ctx = Invest { sol_strategy: self.strategy, ..ctx };
                if ctx.refusal(amount) is None {
                    Book { strategy: ctx.invested(amount).sol_strategy, ..self }
                } else {
                    self
                }
            },
            Call::SellBond { ctx, bond } => {
                let ctx = SellBond { sol_strategy: self.strategy, ..ctx };
                if ctx.refusal() is None {
                    Book { strategy: ctx.sold(bond).sol_strategy, ..self }
                } else {
                    self
                }
            },
            Call::BuyBond { ctx, now, master } => {
                let ctx = BuyBond { sol_strategy: self.strategy, ..ctx };
                match ctx.purchase(now, master) {
                    Ok(purchase) => Book {
                        strategy: ctx.bought(purchase.edition).sol_strategy,
                        ..self
                    },
                    Err(_) => self,
                }
            },
            Call::ConvertBond { ctx, convert, now } => {
                let ctx = ConvertBond { sol_strategy: self.strategy, ..ctx };
                if ctx.redemption(convert, now) is Ok {
                    Book { strategy: ctx.redeemed(convert).sol_strategy, ..self }
                } else {
                    self
                }
            },
            Call::SellWhitelist { ctx, whitelist } => {
                let ctx = SellWhitelist { sol_strategy: self.strategy, ..ctx };
                if ctx.refusal() is None {
                    Book { strategy: ctx.sold(whitelist).sol_strategy, ..self }
                } else {
                    self
                }
            },
            Call::BuyWhitelist { ctx, now, master } => {
                let ctx = BuyWhitelist { sol_strategy: self.strategy, ..ctx };
                match ctx.purchase(now, master) {
                    Ok(purchase) => Book {
                        strategy: ctx.bought(purchase.edition).sol_strategy,
                        ..self
                    },
                    Err(_) => self,
                }
            },
            Call::ConvertWhitelist { collection, edition, whitelist, unit_balance, now } => {
                let ctx = ConvertWhitelist {
                    whitelist,
                    whitelist_edition_record: self.pass(collection, edition),
                    unit_balance,
                };
                if ctx.conversion(now) is Ok {
                    Book {
                        passes: self.passes.insert(
                            (collection, edition),
                            ctx.converted().whitelist_edition_record,
                        ),
                        ..self
                    }
                } else {
                    self
                }
            },
        }
    }

    /// The book after a run of calls, one after the other.
    pub open spec fn after(self, calls: Seq<Call>) -> Book
        decreases calls.len(),
    {
        if calls.len() == 0 {
            self
        } else {
            self.after(calls.drop_last()).apply(calls.last())
        }
    }

    /// The book is consistent: the round counter is, no round has sold more than
    /// its quota, no wallet has contributed more to a round than the round lets
    /// one wallet contribute, and rounds and accounts exist only up to the round
    /// that the counter stands at, and at that round only while it is open.
    pub open spec fn consistent(self) -> bool {
        &&& self.strategy.wf()
        &&& forall|id: u64| #[trigger]
            self.rounds.dom().contains(id) ==> {
                &&& self.rounds[id].wf()
                &&& id <= self.strategy.next_minting_rounds
                &&& id == self.strategy.next_minting_rounds ==> self.strategy.allow_new_mint
            }
        &&& forall|id: u64, wallet: Address| #[trigger]
            self.accounts.dom().contains((id, wallet)) ==> {
                &&& self.accounts[(id, wallet)].within_cap(self.round(id))
                &&& id <= self.strategy.next_minting_rounds
                &&& id == self.strategy.next_minting_rounds ==> self.strategy.allow_new_mint
            }
    }
}

/// A protocol that has just been set up is consistent.
pub proof fn lemma_initial_book_consistent(
    initial_pool_cap: u64,
    individual_address_cap: u64,
    parameters: Parameters,
)
    ensures
        Book::initial(initial_pool_cap, individual_address_cap, parameters).consistent(),
{
}

/// No call breaks consistency: at all times every round has sold no more than its
/// quota, and every wallet has contributed no more to a round than the round lets
/// one wallet contribute.
pub proof fn lemma_call_keeps_book_consistent(book: Book, call: Call)
    requires
        book.consistent(),
    ensures
        book.apply(call).consistent(),
{
}

/// From its set-up on, the protocol is consistent after every run of calls.
pub proof fn lemma_book_always_consistent(
    initial_pool_cap: u64,
    individual_address_cap: u64,
    parameters: Parameters,
    calls: Seq<Call>,
)
    ensures
        Book::initial(initial_pool_cap, individual_address_cap, parameters).after(
            calls,
        ).consistent(),
    decreases calls.len(),
{
    let start = Book::initial(initial_pool_cap, individual_address_cap, parameters);
    if calls.len() == 0 {
        lemma_initial_book_consistent(initial_pool_cap, individual_address_cap, parameters);
    } else {
        lemma_book_always_consistent(
            initial_pool_cap,
            individual_address_cap,
            parameters,
            calls.drop_last(),
        );
        lemma_call_keeps_book_consistent(start.after(calls.drop_last()), calls.last());
    }
}

/// At all times, every round has sold no more than its quota.
pub proof fn lemma_rounds_within_quota(
    initial_pool_cap: u64,
    individual_address_cap: u64,
    parameters: Parameters,
    calls: Seq<Call>,
    id: u64,
)
    ensures
        ({
            let book = Book::initial(
                initial_pool_cap,
                individual_address_cap,
                parameters,
            ).after(calls);
            book.round(id).solxr_minted <= book.round(id).solxr_available
        }),
{
    lemma_book_always_consistent(initial_pool_cap, individual_address_cap, parameters, calls);
    let book = Book::initial(initial_pool_cap, individual_address_cap, parameters).after(
        calls,
    );
    if book.rounds.dom().contains(id) {
        assert(book.rounds[id].wf());
    }
}

/// At all times, every wallet has contributed no more to a round than the round
/// lets one wallet contribute.
pub proof fn lemma_wallets_within_cap(
    initial_pool_cap: u64,
    individual_address_cap: u64,
    parameters: Parameters,
    calls: Seq<Call>,
    id: u64,
    wallet: Address,
)
    ensures
        ({
            let book = Book::initial(
                initial_pool_cap,
                individual_address_cap,
                parameters,
            ).after(calls);
            book.account(id, wallet).amount_minted <= book.round(id).max_mint_per_wallet
        }),
{
    lemma_book_always_consistent(initial_pool_cap, individual_address_cap, parameters, calls);
    let book = Book::initial(initial_pool_cap, individual_address_cap, parameters).after(
        calls,
    );
    if book.accounts.dom().contains((id, wallet)) {
        assert(book.accounts[(id, wallet)].within_cap(book.round(id)));
    }
}

/// Whether a call converts the pass numbered `edition` of the offering kept under
/// `collection`, when it is applied to the book.
pub open spec fn converts(book: Book, call: Call, collection: Address, edition: u64) -> bool {
    match call {
        Call::ConvertWhitelist { collection: c, edition: e, whitelist, unit_balance, now } => {
            &&& c == collection
            &&& e == edition
            &&& (ConvertWhitelist {
                whitelist,
                whitelist_edition_record: book.pass(c, e),
                unit_balance,
            }).conversion(now) is Ok
        },
        _ => false,
    }
}

/// A pass that has been converted stays converted, whatever is called.
pub proof fn lemma_converted_pass_stays_converted(
    book: Book,
    calls: Seq<Call>,
    collection: Address,
    edition: u64,
)
    requires
        book.pass(collection, edition).converted,
    ensures
        book.after(calls).pass(collection, edition).converted,
    decreases calls.len(),
{
    if calls.len() > 0 {
        lemma_converted_pass_stays_converted(book, calls.drop_last(), collection, edition);
    }
}

/// A whitelist pass converts once for all times: after a call has converted it,
/// no call converts it again, whatever is called in between.
pub proof fn lemma_pass_converts_once(
    book: Book,
    first: Call,
    between: Seq<Call>,
    second: Call,
    collection: Address,
    edition: u64,
)
    requires
        converts(book, first, collection, edition),
    ensures
        !converts(book.apply(first).after(between), second, collection, edition),
{
    lemma_converted_pass_stays_converted(book.apply(first), between, collection, edition);
}

} // verus!
