//! Moving tokens between a trader and the vault at no new price.

use crate::address::Address;
use crate::custody::{custody_bump, custody_derivation};
use crate::derivation::derivation_view;
use crate::error::{viewed, DecenseError};
use crate::pricing::{
    count_after_acquiring, count_after_releasing, holders_after_acquiring,
    holders_after_releasing, TOKEN_DECIMALS,
};
use crate::processor::{
    nothing_stored, release_from_vault, store, unsigned, vault_release, without_signature,
    Processor,
};
use crate::runtime::{
    token_account_amount, token_balance, Account, Effects, EffectsView, Invocation, SubOperation,
};
use crate::state::{UserState, UserStateView};
use vstd::prelude::*;

verus! {

/// Place of the seller whose token is moved.
pub const SELLER: usize = 0;

/// Place of the seller record.
pub const SELLER_RECORD: usize = 1;

/// Place of the mint of the seller's token.
pub const MINT: usize = 2;

/// Place of the trader.
pub const TRADER: usize = 3;

/// Place of the trader's token account.
pub const TRADER_TOKENS: usize = 4;

/// Place of the seller's custody address.
pub const CUSTODY: usize = 5;

/// Place of the vault's token account.
pub const VAULT_TOKENS: usize = 6;

/// Accounts that a transfer takes: the seven above and the token program.
pub const TRANSFER_ACCOUNTS: usize = 8;

/// The action that sends tokens from the trader to the vault.
pub const DEPOSIT: u64 = 0;

/// The action that takes tokens out of the vault for the trader.
pub const WITHDRAW: u64 = 1;

/// What preparing a transfer asks for, given what deriving the custody
/// address gave: a deposit moves the amount from the trader to the vault
/// under the trader's authority; a withdrawal asks for nothing yet.
pub open spec fn transfer_preparation(
    derived: Option<(Seq<u8>, u8)>,
    accounts: Seq<Account>,
    action: u64,
    amount: u64,
) -> Result<EffectsView, DecenseError> {
    if accounts.len() < TRANSFER_ACCOUNTS {
        Err(DecenseError::NotEnoughAccountKeys)
    } else {
        match custody_bump(derived, accounts[CUSTODY as int].key@) {
            Ok(_) => if action == DEPOSIT {
                Ok(
                    EffectsView {
                        invocations: seq![
                            unsigned(
                                SubOperation::TransferTokens {
                                    source: accounts[TRADER_TOKENS as int].key,
                                    mint: accounts[MINT as int].key,
                                    destination: accounts[VAULT_TOKENS as int].key,
                                    authority: accounts[TRADER as int].key,
                                    amount,
                                    decimals: TOKEN_DECIMALS,
                                },
                            ),
                        ],
                        writes: Seq::empty(),
                    },
                )
            } else if action == WITHDRAW {
                Ok(EffectsView { invocations: Seq::empty(), writes: Seq::empty() })
            } else {
                Err(DecenseError::InvalidInstruction)
            },
            Err(e) => Err(e),
        }
    }
}

/// The seller record after a transfer, given what reading the trader's
/// token account gave, or `None` where the record stays as it is. After a
/// deposit the balance is what the trader has left, and a trader left with
/// nothing is counted out; before a withdrawal it is what the trader has,
/// and a trader who has nothing is counted in.
pub open spec fn recounted_record(
    seller_record: Seq<u8>,
    trader_balance: Result<u64, DecenseError>,
    action: u64,
) -> Result<Option<Seq<u8>>, DecenseError> {
    if action != DEPOSIT && action != WITHDRAW {
        Err(DecenseError::InvalidInstruction)
    } else {
        match trader_balance {
            Ok(balance) => if balance != 0 {
                Ok(None)
            } else {
                match UserStateView::decode_populated(seller_record) {
                    Ok(seller) => match (if action == DEPOSIT {
                        holders_after_releasing(seller.holders, balance)
                    } else {
                        holders_after_acquiring(seller.holders, balance)
                    }) {
                        Some(holders) => Ok(Some(UserStateView { holders, ..seller }.encode())),
                        None => Err(DecenseError::MathError),
                    },
                    Err(e) => Err(e),
                }
            },
            Err(e) => Err(e),
        }
    }
}

/// What a transfer asks for, given what deriving the custody address and
/// reading the trader's token account gave: the seller record is stored if
/// the count changes, and a withdrawal releases the amount from the vault
/// to the trader. The price stays as it is.
pub open spec fn transfer_settlement(
    derived: Option<(Seq<u8>, u8)>,
    trader_balance: Result<u64, DecenseError>,
    accounts: Seq<Account>,
    action: u64,
    amount: u64,
) -> Result<EffectsView, DecenseError> {
    if accounts.len() < TRANSFER_ACCOUNTS {
        Err(DecenseError::NotEnoughAccountKeys)
    } else {
        match (
            custody_bump(derived, accounts[CUSTODY as int].key@),
            recounted_record(accounts[SELLER_RECORD as int].data@, trader_balance, action),
        ) {
            (Err(e), _) => Err(e),
            (Ok(_), Err(e)) => Err(e),
            (Ok(bump), Ok(record)) => Ok(
                EffectsView {
                    invocations: if action == WITHDRAW {
                        seq![
                            vault_release(
                                accounts[SELLER as int].key,
                                bump,
                                accounts[VAULT_TOKENS as int].key,
                                accounts[MINT as int].key,
                                accounts[TRADER_TOKENS as int].key,
                                accounts[CUSTODY as int].key,
                                amount,
                            ),
                        ]
                    } else {
                        Seq::empty()
                    },
                    writes: match record {
                        Some(record) => seq![(SELLER_RECORD, record)],
                        None => Seq::empty(),
                    },
                },
            ),
        }
    }
}

impl Processor {
    /// Computes the seller record that a transfer leaves behind, if it
    /// changes.
    pub fn recount_record(
        seller_record: &[u8],
        trader_balance: Result<u64, DecenseError>,
        action: u64,
    ) -> (record: Result<Option<Vec<u8>>, DecenseError>)
        ensures
            match record {
                Ok(Some(bytes)) => recounted_record(seller_record@, trader_balance, action) == Ok::<
                    Option<Seq<u8>>,
                    DecenseError,
                >(Some(bytes@)),
                Ok(None) => recounted_record(seller_record@, trader_balance, action) == Ok::<
                    Option<Seq<u8>>,
                    DecenseError,
                >(None),
                Err(e) => recounted_record(seller_record@, trader_balance, action) == Err::<
                    Option<Seq<u8>>,
                    DecenseError,
                >(e),
            },
    {
        if action != DEPOSIT && action != WITHDRAW {
            return Err(DecenseError::InvalidInstruction);
        }
        let balance = trader_balance?;
        if balance != 0 {
            return Ok(None);
        }
        let mut seller = UserState::unpack(seller_record)?;
        let count = if action == DEPOSIT {
            count_after_releasing(seller.holders, balance)
        } else {
            count_after_acquiring(seller.holders, balance)
        };
        seller.holders = count?;
        Ok(Some(seller.to_bytes()))
    }

    /// First step of a transfer, for a custody derivation already made.
    pub fn prepare_send_receive_tokens_with(
        found: Option<(Address, u8)>,
        accounts: &[Account],
        action: u64,
        amount: u64,
    ) -> (effects: Result<Effects, DecenseError>)
        ensures
            viewed(effects) == transfer_preparation(
                derivation_view(found),
                accounts@,
                action,
                amount,
            ),
    {
        if accounts.len() < TRANSFER_ACCOUNTS {
            return Err(DecenseError::NotEnoughAccountKeys);
        }
        crate::custody::check(found, &accounts[CUSTODY].key)?;
        let mut invocations: Vec<Invocation> = Vec::new();
        if action == DEPOSIT {
            invocations.push(
                without_signature(
                    SubOperation::TransferTokens {
                        source: accounts[TRADER_TOKENS].key,
                        mint: accounts[MINT].key,
                        destination: accounts[VAULT_TOKENS].key,
                        authority: accounts[TRADER].key,
                        amount,
                        decimals: TOKEN_DECIMALS,
                    },
                ),
            );
        } else if action != WITHDRAW {
            return Err(DecenseError::InvalidInstruction);
        }
        let effects = Effects { invocations, writes: nothing_stored() };
        Ok(effects)
    }

    /// First step of a transfer.
    pub fn prepare_send_receive_tokens(
        program_id: &Address,
        accounts: &[Account],
        action: u64,
        amount: u64,
    ) -> (effects: Result<Effects, DecenseError>)
        ensures
            viewed(effects) == transfer_preparation(
                custody_derivation(program_id@, accounts@[SELLER as int].key@),
                accounts@,
                action,
                amount,
            ),
    {
        if accounts.len() < TRANSFER_ACCOUNTS {
            return Err(DecenseError::NotEnoughAccountKeys);
        }
        let found = crate::custody::derive(program_id, &accounts[SELLER].key);
        Processor::prepare_send_receive_tokens_with(found, accounts, action, amount)
    }

    /// Second step of a transfer, for a custody derivation and a token
    /// balance already read.
    pub fn process_send_receive_tokens_with(
        found: Option<(Address, u8)>,
        trader_balance: Result<u64, DecenseError>,
        accounts: &[Account],
        action: u64,
        amount: u64,
    ) -> (effects: Result<Effects, DecenseError>)
        ensures
            viewed(effects) == transfer_settlement(
                derivation_view(found),
                trader_balance,
                accounts@,
                action,
                amount,
            ),
    {
        if accounts.len() < TRANSFER_ACCOUNTS {
            return Err(DecenseError::NotEnoughAccountKeys);
        }
        let bump = crate::custody::check(found, &accounts[CUSTODY].key)?;
        let record = Processor::recount_record(
            accounts[SELLER_RECORD].data.as_slice(),
            trader_balance,
            action,
        )?;
        let mut invocations: Vec<Invocation> = Vec::new();
        if action == WITHDRAW {
            invocations.push(
                release_from_vault(
                    &accounts[SELLER].key,
                    bump,
                    &accounts[VAULT_TOKENS].key,
                    &accounts[MINT].key,
                    &accounts[TRADER_TOKENS].key,
                    &accounts[CUSTODY].key,
                    amount,
                ),
            );
        }
        let writes = match record {
            Some(record) => store(SELLER_RECORD, record),
            None => nothing_stored(),
        };
        let effects = Effects { invocations, writes };
        Ok(effects)
    }

    /// Second step of a transfer.
    pub fn process_send_receive_tokens(
        program_id: &Address,
        accounts: &[Account],
        action: u64,
        amount: u64,
    ) -> (effects: Result<Effects, DecenseError>)
        ensures
            viewed(effects) == transfer_settlement(
                custody_derivation(program_id@, accounts@[SELLER as int].key@),
                token_account_amount(accounts@[TRADER_TOKENS as int].data@),
                accounts@,
                action,
                amount,
            ),
    {
        if accounts.len() < TRANSFER_ACCOUNTS {
            return Err(DecenseError::NotEnoughAccountKeys);
        }
        let found = crate::custody::derive(program_id, &accounts[SELLER].key);
        let trader_balance = token_balance(accounts[TRADER_TOKENS].data.as_slice());
        Processor::process_send_receive_tokens_with(found, trader_balance, accounts, action, amount)
    }
}

/// A transfer changes no more than the holder count of the seller record:
/// read back, a record that a transfer stores is as it was but for the
/// count, which is one lower after a deposit and one higher before a
/// withdrawal.
pub proof fn lemma_transfer_changes_only_the_count(
    seller_record: Seq<u8>,
    trader_balance: u64,
    action: u64,
)
    requires
        recounted_record(seller_record, Ok(trader_balance), action) matches Ok(Some(_)),
    ensures
        ({
            let seller = UserStateView::decode(seller_record)->Ok_0;
            let seller_after = recounted_record(seller_record, Ok(trader_balance), action)->Ok_0->0;
            &&& trader_balance == 0
            &&& action == DEPOSIT ==> seller.holders >= 1 && UserStateView::decode_populated(
                seller_after,
            ) == Ok::<UserStateView, DecenseError>(
                UserStateView { holders: (seller.holders - 1) as u64, ..seller },
            )
            &&& action == WITHDRAW ==> seller.holders < u64::MAX
                && UserStateView::decode_populated(seller_after) == Ok::<
                UserStateView,
                DecenseError,
            >(UserStateView { holders: (seller.holders + 1) as u64, ..seller })
        }),
{
    let seller = UserStateView::decode(seller_record)->Ok_0;
    crate::state::lemma_user_bytes_round_trip(seller_record);
    if action == DEPOSIT {
        crate::state::lemma_user_round_trip(
            UserStateView { holders: (seller.holders - 1) as u64, ..seller },
        );
    } else {
        crate::state::lemma_user_round_trip(
            UserStateView { holders: (seller.holders + 1) as u64, ..seller },
        );
    }
}

} // verus!
