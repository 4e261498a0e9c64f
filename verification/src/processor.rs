//! The operations of the exchange, as steps from accounts to effects.

use crate::address::Address;
use crate::custody::custody_derivation;
use crate::error::{viewed, DecenseError};
use crate::instruction::{decode_instruction, DecenseInstruction};
use crate::pricing::TOKEN_DECIMALS;
use crate::processor::exchange::{exchange_preparation, exchange_settlement};
use crate::processor::launch::{user_initialization, user_preparation};
use crate::processor::platform::{platform_initialization, platform_preparation};
use crate::processor::transfer::{transfer_preparation, transfer_settlement};
use crate::runtime::{
    rent_exempt_minimum, rent_exemption_of, token_account_amount, Account, CustodySeeds, Effects,
    EffectsView, Invocation, RecordSeed, RecordWrite, SubOperation, MAX_RECORD_SPACE,
};
use vstd::prelude::*;

pub mod exchange;
pub mod launch;
pub mod platform;
pub mod transfer;

verus! {

/// The operations of the exchange.
///
/// Every operation runs in two steps, because it reads accounts that its
/// own sub-operations change. Its `prepare_` step checks what can be
/// checked before anything is created and names the sub-operations that
/// have to run before the accounts are read. Its `process_` step reads the
/// accounts as they then stand, checks them, and names the remaining
/// sub-operations and the records to store. The caller runs the first step,
/// performs what it asks for, reads the accounts again, runs the second step
/// and performs that too. A step that fails asks for nothing, and undoes
/// nothing: where a step or a sub-operation fails, it is for the caller to
/// discard the whole operation.
///
/// An operation finds its accounts by their place in the list it is given;
/// each operation's module names the places.
pub struct Processor;

/// A sub-operation that needs no signature of the program.
pub open spec fn unsigned(operation: SubOperation) -> Invocation {
    Invocation { operation, signer: None }
}

/// The sub-operation that creates a record of `space` bytes for the program,
/// paid for and seeded by `payer` and exempt from rent.
pub open spec fn record_creation(
    payer: Address,
    record: Address,
    seed: RecordSeed,
    space: usize,
    owner: Address,
) -> Invocation {
    unsigned(
        SubOperation::CreateRecord {
            payer,
            record,
            seed,
            lamports: rent_exemption_of(space as nat) as u64,
            space: space as u64,
            owner,
        },
    )
}

/// A movement of tokens out of a seller's vault, signed with the seeds of
/// the seller's custody address.
pub open spec fn vault_release(
    seller: Address,
    bump: u8,
    vault_tokens: Address,
    mint: Address,
    destination: Address,
    custody: Address,
    amount: u64,
) -> Invocation {
    Invocation {
        operation: SubOperation::TransferTokens {
            source: vault_tokens,
            mint,
            destination,
            authority: custody,
            amount,
            decimals: TOKEN_DECIMALS,
        },
        signer: Some(CustodySeeds { seller, bump }),
    }
}

/// What the first step of an instruction asks for.
pub open spec fn instruction_preparation(
    program_id: Address,
    accounts: Seq<Account>,
    instruction_data: Seq<u8>,
) -> Result<EffectsView, DecenseError> {
    match decode_instruction(instruction_data) {
        Ok(DecenseInstruction::InitializePlatform) => platform_preparation(program_id, accounts),
        Ok(DecenseInstruction::InitializeUser { .. }) => user_preparation(program_id, accounts),
        Ok(DecenseInstruction::Exchange { .. }) => exchange_preparation(
            custody_derivation(program_id@, accounts[exchange::SELLER as int].key@),
            program_id,
            accounts,
        ),
        Ok(DecenseInstruction::SendReceiveToken { action, amount }) => transfer_preparation(
            custody_derivation(program_id@, accounts[transfer::SELLER as int].key@),
            accounts,
            action,
            amount,
        ),
        Err(e) => Err(e),
    }
}

/// What the second step of an instruction asks for.
pub open spec fn instruction_processing(
    program_id: Address,
    accounts: Seq<Account>,
    instruction_data: Seq<u8>,
) -> Result<EffectsView, DecenseError> {
    match decode_instruction(instruction_data) {
        Ok(DecenseInstruction::InitializePlatform) => platform_initialization(accounts),
        Ok(DecenseInstruction::InitializeUser { market_valuation, supply }) => user_initialization(
            accounts,
            market_valuation,
            supply,
        ),
        Ok(DecenseInstruction::Exchange { asked_price, quantity }) => exchange_settlement(
            custody_derivation(program_id@, accounts[exchange::SELLER as int].key@),
            token_account_amount(accounts[exchange::VAULT_TOKENS as int].data@),
            token_account_amount(accounts[exchange::BUYER_TOKENS as int].data@),
            accounts,
            asked_price,
            quantity,
        ),
        Ok(DecenseInstruction::SendReceiveToken { action, amount }) => transfer_settlement(
            custody_derivation(program_id@, accounts[transfer::SELLER as int].key@),
            token_account_amount(accounts[transfer::TRADER_TOKENS as int].data@),
            accounts,
            action,
            amount,
        ),
        Err(e) => Err(e),
    }
}

pub(crate) fn without_signature(operation: SubOperation) -> (invocation: Invocation)
    ensures
        invocation == unsigned(operation),
{
    Invocation { operation, signer: None }
}

pub(crate) fn create_record(
    payer: &Address,
    record: &Address,
    seed: RecordSeed,
    space: usize,
    owner: &Address,
) -> (invocation: Invocation)
    requires
        space <= MAX_RECORD_SPACE,
    ensures
        invocation == record_creation(*payer, *record, seed, space, *owner),
{
    without_signature(
        SubOperation::CreateRecord {
            payer: *payer,
            record: *record,
            seed,
            lamports: rent_exempt_minimum(space),
            space: space as u64,
            owner: *owner,
        },
    )
}

pub(crate) fn release_from_vault(
    seller: &Address,
    bump: u8,
    vault_tokens: &Address,
    mint: &Address,
    destination: &Address,
    custody: &Address,
    amount: u64,
) -> (invocation: Invocation)
    ensures
        invocation == vault_release(
            *seller,
            bump,
            *vault_tokens,
            *mint,
            *destination,
            *custody,
            amount,
        ),
{
    Invocation {
        operation: SubOperation::TransferTokens {
            source: *vault_tokens,
            mint: *mint,
            destination: *destination,
            authority: *custody,
            amount,
            decimals: TOKEN_DECIMALS,
        },
        signer: Some(CustodySeeds { seller: *seller, bump }),
    }
}

pub(crate) fn store(account: usize, data: Vec<u8>) -> (writes: Vec<RecordWrite>)
    ensures
        writes@.map_values(|w: RecordWrite| (w.account, w.data@)) == seq![(account, data@)],
{
    let mut writes: Vec<RecordWrite> = Vec::new();
    writes.push(RecordWrite { account, data });
    writes
}

pub(crate) fn nothing_stored() -> (writes: Vec<RecordWrite>)
    ensures
        writes@.map_values(|w: RecordWrite| (w.account, w.data@)) == Seq::<
            (usize, Seq<u8>),
        >::empty(),
{
    let writes: Vec<RecordWrite> = Vec::new();
    writes
}

impl Processor {
    /// Parses an instruction and runs the first step of the operation it
    /// names.
    pub fn unpack_and_prepare_instruction(
        program_id: &Address,
        accounts: &[Account],
        instruction_data: &[u8],
    ) -> (effects: Result<Effects, DecenseError>)
        ensures
            viewed(effects) == instruction_preparation(*program_id, accounts@, instruction_data@),
    {
        match DecenseInstruction::unpack_instruction(instruction_data) {
            Ok(DecenseInstruction::InitializePlatform) => Processor::prepare_initialize_platform(
                program_id,
                accounts,
            ),
            Ok(DecenseInstruction::InitializeUser { .. }) => Processor::prepare_initialize_user(
                program_id,
                accounts,
            ),
            Ok(DecenseInstruction::Exchange { .. }) => Processor::prepare_exchange(
                program_id,
                accounts,
            ),
            Ok(
                DecenseInstruction::SendReceiveToken { action, amount },
            ) => Processor::prepare_send_receive_tokens(program_id, accounts, action, amount),
            Err(e) => Err(e),
        }
    }

    /// Parses an instruction and runs the second step of the operation it
    /// names.
    pub fn unpack_and_process_instruction(
        program_id: &Address,
        accounts: &[Account],
        instruction_data: &[u8],
    ) -> (effects: Result<Effects, DecenseError>)
        ensures
            viewed(effects) == instruction_processing(*program_id, accounts@, instruction_data@),
    {
        match DecenseInstruction::unpack_instruction(instruction_data) {
            Ok(DecenseInstruction::InitializePlatform) => Processor::process_initialize_platform(
                accounts,
            ),
            Ok(
                DecenseInstruction::InitializeUser { market_valuation, supply },
            ) => Processor::process_initialize_user(accounts, market_valuation, supply),
            Ok(DecenseInstruction::Exchange { asked_price, quantity }) => Processor::process_exchange(
                program_id,
                accounts,
                asked_price,
                quantity,
            ),
            Ok(
                DecenseInstruction::SendReceiveToken { action, amount },
            ) => Processor::process_send_receive_tokens(program_id, accounts, action, amount),
            Err(e) => Err(e),
        }
    }
}

/// Whatever a step asks to store goes to an account of the list that the
/// step was given.
pub proof fn lemma_writes_stay_in_the_list(
    program_id: Address,
    accounts: Seq<Account>,
    instruction_data: Seq<u8>,
)
    ensures
        instruction_preparation(program_id, accounts, instruction_data) matches Ok(effects)
            ==> forall|i: int|
            0 <= i < effects.writes.len() ==> (#[trigger] effects.writes[i]).0 < accounts.len(),
        instruction_processing(program_id, accounts, instruction_data) matches Ok(effects)
            ==> forall|i: int|
            0 <= i < effects.writes.len() ==> (#[trigger] effects.writes[i]).0 < accounts.len(),
{
}

/// The program signs only for releases from the vault: whatever an
/// exchange or a transfer asks to have signed moves tokens out of the
/// vault's token account under the authority of the derived custody
/// address, and is signed with the seller's identity and the derived bump.
pub proof fn lemma_custody_signs_only_vault_releases(
    derived: Option<(Seq<u8>, u8)>,
    vault_balance: Result<u64, DecenseError>,
    trader_balance: Result<u64, DecenseError>,
    accounts: Seq<Account>,
    first: u64,
    second: u64,
)
    ensures
        exchange_settlement(derived, vault_balance, trader_balance, accounts, first, second)
            matches Ok(effects) ==> forall|i: int|
            0 <= i < effects.invocations.len() ==> (#[trigger] effects.invocations[i].signer
                matches Some(seeds) ==> {
                &&& derived == Some((accounts[exchange::CUSTODY as int].key@, seeds.bump))
                &&& seeds.seller == accounts[exchange::SELLER as int].key
                &&& effects.invocations[i].operation matches SubOperation::TransferTokens {
                    source,
                    authority,
                    ..
                }
                &&& source == accounts[exchange::VAULT_TOKENS as int].key
                &&& authority == accounts[exchange::CUSTODY as int].key
            }),
        transfer_settlement(derived, trader_balance, accounts, first, second) matches Ok(
            effects,
        ) ==> forall|i: int|
            0 <= i < effects.invocations.len() ==> (#[trigger] effects.invocations[i].signer
                matches Some(seeds) ==> {
                &&& derived == Some((accounts[transfer::CUSTODY as int].key@, seeds.bump))
                &&& seeds.seller == accounts[transfer::SELLER as int].key
                &&& effects.invocations[i].operation matches SubOperation::TransferTokens {
                    source,
                    authority,
                    ..
                }
                &&& source == accounts[transfer::VAULT_TOKENS as int].key
                &&& authority == accounts[transfer::CUSTODY as int].key
            }),
{
}

} // verus!
