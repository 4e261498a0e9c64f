//! What an operation is given and what it asks for: accounts, sub-operations
//! and writes, and what the ledger's own layouts and rates say.

use crate::address::Address;
use crate::error::DecenseError;
use solana_program::program_error::ProgramError;
use solana_program::program_pack::Pack;
use solana_program::rent::Rent;
use vstd::prelude::*;

verus! {

/// Largest account that the ledger lets a program create, in bytes.
pub const MAX_RECORD_SPACE: usize = 10_485_760;

/// An account as the caller hands it to an operation: where it lives and
/// the bytes it holds now.
#[derive(Debug, PartialEq, Eq)]
pub struct Account {
    /// The address of the account.
    pub key: Address,
    /// The contents of the account; empty for an account that does not
    /// exist yet.
    pub data: Vec<u8>,
}

/// The label from which the address of a record is seeded.
#[derive(Clone, Copy, Debug, PartialEq, Eq, Structural)]
pub enum RecordSeed {
    /// The label of the platform record.
    Platform,
    /// The label of a seller record.
    User,
    /// The label of a buyer record.
    Buyer,
}

impl RecordSeed {
    /// The text of the label.
    pub open spec fn text(self) -> Seq<char> {
        match self {
            RecordSeed::Platform => "DECENSE PLATFORM"@,
            RecordSeed::User => "DECENSE USER"@,
            RecordSeed::Buyer => "DECENSE BUYER"@,
        }
    }

    /// The label as the ledger takes it.
    pub fn label(&self) -> (label: &'static str)
        ensures
            label@ == self.text(),
    {
        match self {
            RecordSeed::Platform => "DECENSE PLATFORM",
            RecordSeed::User => "DECENSE USER",
            RecordSeed::Buyer => "DECENSE BUYER",
        }
    }
}

/// One step that the ledger or the token program performs for an operation.
#[derive(Clone, Copy, Debug, PartialEq, Eq)]
pub enum SubOperation {
    /// Create a record owned by `owner` at the address seeded from the payer
    /// and the label, funded with `lamports` and `space` bytes wide.
    CreateRecord {
        payer: Address,
        record: Address,
        seed: RecordSeed,
        lamports: u64,
        space: u64,
        owner: Address,
    },
    /// Move native currency.
    TransferNative { from: Address, to: Address, lamports: u64 },
    /// Set up a mint.
    InitializeMint {
        mint: Address,
        mint_authority: Address,
        freeze_authority: Address,
        decimals: u8,
    },
    /// Create the token account that goes with a wallet and a mint.
    CreateAssociatedAccount { payer: Address, wallet: Address, mint: Address },
    /// Mint new tokens into a token account.
    MintTo { mint: Address, destination: Address, authority: Address, amount: u64, decimals: u8 },
    /// Move tokens between two token accounts.
    TransferTokens {
        source: Address,
        mint: Address,
        destination: Address,
        authority: Address,
        amount: u64,
        decimals: u8,
    },
}

/// The seeds with which the program signs for a seller's custody address.
#[derive(Clone, Copy, Debug, PartialEq, Eq)]
pub struct CustodySeeds {
    /// The seller whose custody address signs.
    pub seller: Address,
    /// The bump that the derivation of the custody address gave.
    pub bump: u8,
}

/// A sub-operation, and the custody seeds to sign it with where the custody
/// address is its authority.
#[derive(Clone, Copy, Debug, PartialEq, Eq)]
pub struct Invocation {
    /// What to perform.
    pub operation: SubOperation,
    /// The seeds to sign with, if the program signs.
    pub signer: Option<CustodySeeds>,
}

/// New contents for the account at position `account` of the list that the
/// operation was given.
#[derive(Debug, PartialEq, Eq)]
pub struct RecordWrite {
    /// The place of the account in the list.
    pub account: usize,
    /// The bytes to store, as wide as the record.
    pub data: Vec<u8>,
}

/// What one step of an operation asks of its caller: perform the
/// invocations in order, then store the writes.
#[derive(Debug, PartialEq, Eq)]
pub struct Effects {
    /// The sub-operations to perform, in order.
    pub invocations: Vec<Invocation>,
    /// The records to store once the sub-operations have succeeded.
    pub writes: Vec<RecordWrite>,
}

/// Effects with every buffer as a sequence of bytes.
pub struct EffectsView {
    pub invocations: Seq<Invocation>,
    pub writes: Seq<(usize, Seq<u8>)>,
}

impl View for Effects {
    type V = EffectsView;

    open spec fn view(&self) -> EffectsView {
        EffectsView {
            invocations: self.invocations@,
            writes: self.writes@.map_values(|w: RecordWrite| (w.account, w.data@)),
        }
    }
}

/// The balance below which the ledger charges rent on an account of
/// `space` bytes, at the ledger's default rate: 6960 lamports for each byte,
/// counting 128 bytes of overhead.
pub open spec fn rent_exemption_of(space: nat) -> nat {
    (128 + space) * 6960
}

/// What the token program's account layout makes of a buffer: the amount it
/// holds, or why it cannot be read as a token account in use.
pub uninterp spec fn token_account_amount(data: Seq<u8>) -> Result<u64, DecenseError>;

/// Calls `Rent::default().minimum_balance` of `solana_program`. With the
/// default rate of 3480 lamports for a byte and a year and the default
/// threshold of two years, the call returns 6960 lamports for each byte of
/// the account and of 128 bytes of overhead. The bound on `space` keeps the
/// product far inside the range in which the call's arithmetic is exact.
#[verifier::external_body]
pub(crate) fn rent_exempt_minimum(space: usize) -> (lamports: u64)
    requires
        space <= MAX_RECORD_SPACE,
    ensures
        lamports == rent_exemption_of(space as nat),
{
    Rent::default().minimum_balance(space)
}

/// Calls `Account::unpack` of `spl_token::state` and hands out the `amount`
/// of the account it read. The result depends on the bytes alone. The call
/// fails with `UninitializedAccount` or with `InvalidAccountData`, which
/// come back as the errors of the same names.
#[verifier::external_body]
fn read_token_amount(data: &[u8]) -> (amount: Result<u64, DecenseError>)
    ensures
        amount == token_account_amount(data@),
{
    match spl_token::state::Account::unpack(data) {
        Ok(account) => Ok(account.amount),
        Err(ProgramError::UninitializedAccount) => Err(DecenseError::UninitializedAccount),
        Err(_) => Err(DecenseError::InvalidAccountData),
    }
}

/// Reads the amount that a token account holds.
pub fn token_balance(data: &[u8]) -> (amount: Result<u64, DecenseError>)
    ensures
        amount == token_account_amount(data@),
{
    read_token_amount(data)
}

} // verus!
