//! Exchanging native currency for tokens from the vault.

use crate::address::Address;
use crate::custody::{custody_bump, custody_derivation};
use crate::derivation::derivation_view;
use crate::error::{viewed, DecenseError};
use crate::pricing::{count_after_acquiring, holders_after_acquiring, price_after_trade, reprice};
use crate::processor::{
    create_record, nothing_stored, record_creation, release_from_vault, store, unsigned,
    vault_release, without_signature, Processor,
};
use crate::runtime::{
    token_account_amount, token_balance, Account, Effects, EffectsView, Invocation, RecordSeed,
    RecordWrite, SubOperation,
};
use crate::state::{BuyerState, BuyerStateView, UserState, UserStateView, BUYER_STATE_LEN,
};
use vstd::prelude::*;

verus! {

/// Place of the buyer, who pays the asked price.
pub const BUYER: usize = 0;

/// Place of the buyer record.
pub const BUYER_RECORD: usize = 1;

/// Place of the buyer's token account.
pub const BUYER_TOKENS: usize = 2;

/// Place of the seller, who receives the asked price.
pub const SELLER: usize = 3;

/// Place of the mint of the seller's token.
pub const MINT: usize = 4;

/// Place of the seller record.
pub const SELLER_RECORD: usize = 5;

/// Place of the seller's custody address.
pub const CUSTODY: usize = 6;

/// Place of the vault's token account.
pub const VAULT_TOKENS: usize = 7;

/// Accounts that an exchange takes: the eight above, and then the token
/// program, the rent sysvar, the associated-token program and the system
/// program.
pub const EXCHANGE_ACCOUNTS: usize = 12;

/// The record of a buyer who has not traded yet.
pub open spec fn opened_buyer_record(buyer: Seq<u8>) -> Seq<u8> {
    BuyerStateView { is_initialized: true, buyer, current_holding_in_tokens: 0 }.encode()
}

/// What preparing an exchange asks for, given what deriving the seller's
/// custody address gave: the custody address handed in must be the derived
/// one; a buyer record that holds no bytes is created and opened, and a
/// buyer's token account that holds none is created.
pub open spec fn exchange_preparation(
    derived: Option<(Seq<u8>, u8)>,
    program_id: Address,
    accounts: Seq<Account>,
) -> Result<EffectsView, DecenseError> {
    if accounts.len() < EXCHANGE_ACCOUNTS {
        Err(DecenseError::NotEnoughAccountKeys)
    } else {
        match custody_bump(derived, accounts[CUSTODY as int].key@) {
            Ok(_) => {
                let buyer = accounts[BUYER as int].key;
                let no_record = accounts[BUYER_RECORD as int].data@.len() == 0;
                let no_token_account = accounts[BUYER_TOKENS as int].data@.len() == 0;
                let record = if no_record {
                    seq![
                        record_creation(
                            buyer,
                            accounts[BUYER_RECORD as int].key,
                            RecordSeed::Buyer,
                            BUYER_STATE_LEN,
                            program_id,
                        ),
                    ]
                } else {
                    Seq::empty()
                };
                let token_account = if no_token_account {
                    seq![
                        unsigned(
                            SubOperation::CreateAssociatedAccount {
                                payer: buyer,
                                wallet: buyer,
                                mint: accounts[MINT as int].key,
                            },
                        ),
                    ]
                } else {
                    Seq::empty()
                };
                Ok(
                    EffectsView {
                        invocations: record + token_account,
                        writes: if no_record {
                            seq![(BUYER_RECORD, opened_buyer_record(buyer@))]
                        } else {
                            Seq::empty()
                        },
                    },
                )
            },
            Err(e) => Err(e),
        }
    }
}

/// The seller record and the buyer record after a trade, given what
/// reading the vault's and the buyer's token accounts gave. Both records
/// must be populated and the vault must hold the quantity. The seller
/// record takes the new price and counts a buyer who held nothing; the
/// buyer record takes the quantity as its holding, in place of what it
/// held before.
pub open spec fn traded_records(
    seller_record: Seq<u8>,
    buyer_record: Seq<u8>,
    vault_balance: Result<u64, DecenseError>,
    buyer_balance: Result<u64, DecenseError>,
    asked_price: u64,
    quantity: u64,
) -> Result<(Seq<u8>, Seq<u8>), DecenseError> {
    match (
        UserStateView::decode_populated(seller_record),
        BuyerStateView::decode_populated(buyer_record),
        vault_balance,
    ) {
        (Err(e), _, _) => Err(e),
        (Ok(_), Err(e), _) => Err(e),
        (Ok(_), Ok(_), Err(e)) => Err(e),
        (Ok(seller), Ok(buyer), Ok(vault)) => if quantity > vault {
            Err(DecenseError::InsufficientTokenBalance)
        } else {
            match (
                price_after_trade(seller.current_price, asked_price, vault, quantity),
                buyer_balance,
            ) {
                (None, _) => Err(DecenseError::MathError),
                (Some(_), Err(e)) => Err(e),
                (Some(current_price), Ok(held)) => match holders_after_acquiring(
                    seller.holders,
                    held,
                ) {
                    Some(holders) => Ok(
                        (
                            UserStateView { current_price, holders, ..seller }.encode(),
                            BuyerStateView { current_holding_in_tokens: quantity, ..buyer }.encode(),
                        ),
                    ),
                    None => Err(DecenseError::MathError),
                },
            }
        },
    }
}

/// What an exchange asks for, given what deriving the custody address and
/// reading the two token accounts gave: the buyer pays the asked price to
/// the seller, the vault releases the quantity to the buyer, and both
/// records are stored.
pub open spec fn exchange_settlement(
    derived: Option<(Seq<u8>, u8)>,
    vault_balance: Result<u64, DecenseError>,
    buyer_balance: Result<u64, DecenseError>,
    accounts: Seq<Account>,
    asked_price: u64,
    quantity: u64,
) -> Result<EffectsView, DecenseError> {
    if accounts.len() < EXCHANGE_ACCOUNTS {
        Err(DecenseError::NotEnoughAccountKeys)
    } else {
        match (
            custody_bump(derived, accounts[CUSTODY as int].key@),
            traded_records(
                accounts[SELLER_RECORD as int].data@,
                accounts[BUYER_RECORD as int].data@,
                vault_balance,
                buyer_balance,
                asked_price,
                quantity,
            ),
        ) {
            (Err(e), _) => Err(e),
            (Ok(_), Err(e)) => Err(e),
            (Ok(bump), Ok((seller_record, buyer_record))) => Ok(
                EffectsView {
                    invocations: seq![
                        unsigned(
                            SubOperation::TransferNative {
                                from: accounts[BUYER as int].key,
                                to: accounts[SELLER as int].key,
                                lamports: asked_price,
                            },
                        ),
                        vault_release(
                            accounts[SELLER as int].key,
                            bump,
                            accounts[VAULT_TOKENS as int].key,
                            accounts[MINT as int].key,
                            accounts[BUYER_TOKENS as int].key,
                            accounts[CUSTODY as int].key,
                            quantity,
                        ),
                    ],
                    writes: seq![(SELLER_RECORD, seller_record), (BUYER_RECORD, buyer_record)],
                },
            ),
        }
    }
}

impl Processor {
    /// Computes the two records that a trade leaves behind.
    pub fn trade_records(
        seller_record: &[u8],
        buyer_record: &[u8],
        vault_balance: Result<u64, DecenseError>,
        buyer_balance: Result<u64, DecenseError>,
        asked_price: u64,
        quantity: u64,
    ) -> (records: Result<(Vec<u8>, Vec<u8>), DecenseError>)
        ensures
            viewed(records) == traded_records(
                seller_record@,
                buyer_record@,
                vault_balance,
                buyer_balance,
                asked_price,
                quantity,
            ),
    {
        let mut seller = UserState::unpack(seller_record)?;
        let mut buyer = BuyerState::unpack(buyer_record)?;
        let vault = vault_balance?;
        if quantity > vault {
            return Err(DecenseError::InsufficientTokenBalance);
        }
        let new_price = reprice(seller.current_price, asked_price, vault, quantity)?;
        let held = buyer_balance?;
        seller.holders = count_after_acquiring(seller.holders, held)?;
        seller.current_price = new_price;
        buyer.current_holding_in_tokens = quantity;
        Ok((seller.to_bytes(), buyer.to_bytes()))
    }

    /// First step of an exchange, for a custody derivation already made.
    pub fn prepare_exchange_with(
        found: Option<(Address, u8)>,
        program_id: &Address,
        accounts: &[Account],
    ) -> (effects: Result<Effects, DecenseError>)
        ensures
            viewed(effects) == exchange_preparation(derivation_view(found), *program_id, accounts@),
    {
        if accounts.len() < EXCHANGE_ACCOUNTS {
            return Err(DecenseError::NotEnoughAccountKeys);
        }
        crate::custody::check(found, &accounts[CUSTODY].key)?;
        let buyer = accounts[BUYER].key;
        let mut invocations: Vec<Invocation> = Vec::new();
        let mut writes = nothing_stored();
        if accounts[BUYER_RECORD].data.len() == 0 {
            invocations.push(
                create_record(
                    &buyer,
                    &accounts[BUYER_RECORD].key,
                    RecordSeed::Buyer,
                    BUYER_STATE_LEN,
                    program_id,
                ),
            );
            let opened = BuyerState { is_initialized: true, buyer, current_holding_in_tokens: 0 };
            writes = store(BUYER_RECORD, opened.to_bytes());
        }
        if accounts[BUYER_TOKENS].data.len() == 0 {
            invocations.push(
                without_signature(
                    SubOperation::CreateAssociatedAccount {
                        payer: buyer,
                        wallet: buyer,
                        mint: accounts[MINT].key,
                    },
                ),
            );
        }
        let effects = Effects { invocations, writes };
        assert(effects@.invocations =~= exchange_preparation(
            derivation_view(found),
            *program_id,
            accounts@,
        )->Ok_0.invocations);
        Ok(effects)
    }

    /// First step of an exchange.
    pub fn prepare_exchange(program_id: &Address, accounts: &[Account]) -> (effects: Result<
        Effects,
        DecenseError,
    >)
        ensures
            viewed(effects) == exchange_preparation(
                custody_derivation(program_id@, accounts@[SELLER as int].key@),
                *program_id,
                accounts@,
            ),
    {
        if accounts.len() < EXCHANGE_ACCOUNTS {
            return Err(DecenseError::NotEnoughAccountKeys);
        }
        let found = crate::custody::derive(program_id, &accounts[SELLER].key);
        Processor::prepare_exchange_with(found, program_id, accounts)
    }

    /// Second step of an exchange, for a custody derivation and two token
    /// balances already read.
    pub fn process_exchange_with(
        found: Option<(Address, u8)>,
        vault_balance: Result<u64, DecenseError>,
        buyer_balance: Result<u64, DecenseError>,
        accounts: &[Account],
        asked_price: u64,
        quantity: u64,
    ) -> (effects: Result<Effects, DecenseError>)
        ensures
            viewed(effects) == exchange_settlement(
                derivation_view(found),
                vault_balance,
                buyer_balance,
                accounts@,
                asked_price,
                quantity,
            ),
    {
        if accounts.len() < EXCHANGE_ACCOUNTS {
            return Err(DecenseError::NotEnoughAccountKeys);
        }
        let bump = crate::custody::check(found, &accounts[CUSTODY].key)?;
        let (seller_record, buyer_record) = Processor::trade_records(
            accounts[SELLER_RECORD].data.as_slice(),
            accounts[BUYER_RECORD].data.as_slice(),
            vault_balance,
            buyer_balance,
            asked_price,
            quantity,
        )?;
        let seller = accounts[SELLER].key;
        let mut invocations: Vec<Invocation> = Vec::new();
        invocations.push(
            without_signature(
                SubOperation::TransferNative {
                    from: accounts[BUYER].key,
                    to: seller,
                    lamports: asked_price,
                },
            ),
        );
        invocations.push(
            release_from_vault(
                &seller,
                bump,
                &accounts[VAULT_TOKENS].key,
                &accounts[MINT].key,
                &accounts[BUYER_TOKENS].key,
                &accounts[CUSTODY].key,
                quantity,
            ),
        );
        let mut writes: Vec<RecordWrite> = Vec::new();
        writes.push(RecordWrite { account: SELLER_RECORD, data: seller_record });
        writes.push(RecordWrite { account: BUYER_RECORD, data: buyer_record });
        let effects = Effects { invocations, writes };
        let ghost expected = exchange_settlement(
            derivation_view(found),
            vault_balance,
            buyer_balance,
            accounts@,
            asked_price,
            quantity,
        )->Ok_0;
        assert(effects@.invocations =~= expected.invocations);
        assert(effects@.writes =~= expected.writes);
        Ok(effects)
    }

    /// Second step of an exchange.
    pub fn process_exchange(
        program_id: &Address,
        accounts: &[Account],
        asked_price: u64,
        quantity: u64,
    ) -> (effects: Result<Effects, DecenseError>)
        ensures
            viewed(effects) == exchange_settlement(
                custody_derivation(program_id@, accounts@[SELLER as int].key@),
                token_account_amount(accounts@[VAULT_TOKENS as int].data@),
                token_account_amount(accounts@[BUYER_TOKENS as int].data@),
                accounts@,
                asked_price,
                quantity,
            ),
    {
        if accounts.len() < EXCHANGE_ACCOUNTS {
            return Err(DecenseError::NotEnoughAccountKeys);
        }
        let found = crate::custody::derive(program_id, &accounts[SELLER].key);
        let vault_balance = token_balance(accounts[VAULT_TOKENS].data.as_slice());
        let buyer_balance = token_balance(accounts[BUYER_TOKENS].data.as_slice());
        Processor::process_exchange_with(
            found,
            vault_balance,
            buyer_balance,
            accounts,
            asked_price,
            quantity,
        )
    }
}

/// An exchange for more tokens than the vault holds fails with
/// `InsufficientTokenBalance` whenever the custody address and both records
/// are in order, and so asks for nothing.
pub proof fn lemma_vault_is_never_overdrawn(
    derived: Option<(Seq<u8>, u8)>,
    vault_balance: u64,
    buyer_balance: Result<u64, DecenseError>,
    accounts: Seq<Account>,
    asked_price: u64,
    quantity: u64,
)
    requires
        accounts.len() >= EXCHANGE_ACCOUNTS,
        custody_bump(derived, accounts[CUSTODY as int].key@) is Ok,
        UserStateView::decode_populated(accounts[SELLER_RECORD as int].data@) is Ok,
        BuyerStateView::decode_populated(accounts[BUYER_RECORD as int].data@) is Ok,
        quantity > vault_balance,
    ensures
        exchange_settlement(
            derived,
            Ok(vault_balance),
            buyer_balance,
            accounts,
            asked_price,
            quantity,
        ) == Err::<EffectsView, DecenseError>(DecenseError::InsufficientTokenBalance),
{
}

/// A trade changes the price and the holder count of the seller record and
/// the holding of the buyer record, and nothing else: read back, the two
/// records are as they were but for the new price, the new count, and the
/// quantity in place of the old holding.
pub proof fn lemma_trade_changes_price_count_and_holding(
    seller_record: Seq<u8>,
    buyer_record: Seq<u8>,
    vault_balance: u64,
    buyer_balance: u64,
    asked_price: u64,
    quantity: u64,
)
    requires
        traded_records(
            seller_record,
            buyer_record,
            Ok(vault_balance),
            Ok(buyer_balance),
            asked_price,
            quantity,
        ) is Ok,
    ensures
        ({
            let seller = UserStateView::decode(seller_record)->Ok_0;
            let buyer = BuyerStateView::decode(buyer_record)->Ok_0;
            let (seller_after, buyer_after) = traded_records(
                seller_record,
                buyer_record,
                Ok(vault_balance),
                Ok(buyer_balance),
                asked_price,
                quantity,
            )->Ok_0;
            &&& quantity <= vault_balance
            &&& UserStateView::decode_populated(seller_after) == Ok::<UserStateView, DecenseError>(
                UserStateView {
                    current_price: price_after_trade(
                        seller.current_price,
                        asked_price,
                        vault_balance,
                        quantity,
                    )->0,
                    holders: holders_after_acquiring(seller.holders, buyer_balance)->0,
                    ..seller
                },
            )
            &&& BuyerStateView::decode_populated(buyer_after) == Ok::<BuyerStateView, DecenseError>(
                BuyerStateView { current_holding_in_tokens: quantity, ..buyer },
            )
        }),
{
    let seller = UserStateView::decode(seller_record)->Ok_0;
    let buyer = BuyerStateView::decode(buyer_record)->Ok_0;
    crate::state::lemma_user_bytes_round_trip(seller_record);
    crate::state::lemma_buyer_bytes_round_trip(buyer_record);
    crate::state::lemma_user_round_trip(
        UserStateView {
            current_price: price_after_trade(
                seller.current_price,
                asked_price,
                vault_balance,
                quantity,
            )->0,
            holders: holders_after_acquiring(seller.holders, buyer_balance)->0,
            ..seller
        },
    );
    crate::state::lemma_buyer_round_trip(
        BuyerStateView { current_holding_in_tokens: quantity, ..buyer },
    );
}

} // verus!
