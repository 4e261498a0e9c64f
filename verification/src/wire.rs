//! Sub-operations in the form in which the ledger takes them.

use crate::address::Address;
use crate::derivation::{search_program_address, searched_address, seeds_view};
use crate::runtime::SubOperation;
use solana_program::pubkey::Pubkey;
use solana_program::system_instruction;
use vstd::prelude::*;

verus! {

/// Why a sub-operation has no instruction.
#[derive(Clone, Copy, Debug, PartialEq, Eq, Structural)]
pub enum WireError {
    /// The token program's library refused to build the instruction.
    IncorrectProgramId,
    /// No token account address goes with the wallet and the mint.
    InvalidSeeds,
}

/// An account that an instruction names, and what the instruction may do
/// with it.
#[derive(Clone, Copy, Debug, PartialEq, Eq)]
pub struct WireAccount {
    /// The address of the account.
    pub address: Address,
    /// Whether the account must have signed.
    pub is_signer: bool,
    /// Whether the instruction may change the account.
    pub is_writable: bool,
}

/// A sub-operation in the form in which the ledger takes it: the program to
/// run, the accounts to run it on, and the program's input.
#[derive(Debug, PartialEq, Eq)]
pub struct WireInstruction {
    /// The program that performs the instruction.
    pub program: Address,
    /// The accounts that the instruction names.
    pub accounts: Vec<WireAccount>,
    /// The input of the program.
    pub data: Vec<u8>,
}

/// A named account, with its address as bytes.
pub struct WireAccountView {
    pub address: Seq<u8>,
    pub is_signer: bool,
    pub is_writable: bool,
}

/// An instruction, with every address and buffer as bytes.
pub struct WireInstructionView {
    pub program: Seq<u8>,
    pub accounts: Seq<WireAccountView>,
    pub data: Seq<u8>,
}

impl View for WireAccount {
    type V = WireAccountView;

    open spec fn view(&self) -> WireAccountView {
        WireAccountView {
            address: self.address@,
            is_signer: self.is_signer,
            is_writable: self.is_writable,
        }
    }
}

impl View for WireInstruction {
    type V = WireInstructionView;

    open spec fn view(&self) -> WireInstructionView {
        WireInstructionView {
            program: self.program@,
            accounts: self.accounts@.map_values(|account: WireAccount| account@),
            data: self.data@,
        }
    }
}

/// An instruction, if any, with every address and buffer as bytes.
pub open spec fn wire_view(wire: Option<WireInstruction>) -> Option<WireInstructionView> {
    match wire {
        Some(wire) => Some(wire@),
        None => None,
    }
}

/// A built instruction or the reason for its absence, with every address
/// and buffer as bytes.
pub open spec fn built_view(built: Result<WireInstruction, WireError>) -> Result<
    WireInstructionView,
    WireError,
> {
    match built {
        Ok(wire) => Ok(wire@),
        Err(e) => Err(e),
    }
}

/// What the token program's library built, or `IncorrectProgramId` where it
/// refused.
pub open spec fn token_instruction(built: Option<WireInstructionView>) -> Result<
    WireInstructionView,
    WireError,
> {
    match built {
        Some(wire) => Ok(wire),
        None => Err(WireError::IncorrectProgramId),
    }
}

/// The system program's instruction that creates an account at the
/// address seeded from the payer and a label.
pub uninterp spec fn record_creation_wire(
    payer: Seq<u8>,
    record: Seq<u8>,
    seed: Seq<char>,
    lamports: u64,
    space: u64,
    owner: Seq<u8>,
) -> WireInstructionView;

/// The system program's instruction that moves native currency.
pub uninterp spec fn native_transfer_wire(from: Seq<u8>, to: Seq<u8>, lamports: u64) -> WireInstructionView;

/// The token program's instruction that sets up a mint, if its library
/// builds one.
pub uninterp spec fn mint_setup_wire(
    mint: Seq<u8>,
    mint_authority: Seq<u8>,
    freeze_authority: Seq<u8>,
    decimals: u8,
) -> Option<WireInstructionView>;

/// The address of the token program.
pub open spec fn token_program_id() -> Seq<u8> {
    seq![
        6u8, 221, 246, 225, 215, 101, 161, 147, 217, 203, 225, 70, 206, 235, 121, 172, 28, 180, 133,
        237, 95, 91, 55, 145, 58, 140, 245, 133, 126, 255, 0, 169,
    ]
}

/// The address of the associated-token program.
pub open spec fn associated_token_program_id() -> Seq<u8> {
    seq![
        140u8, 151, 37, 143, 78, 36, 137, 241, 187, 61, 16, 41, 20, 142, 13, 131, 11, 90, 19, 153,
        218, 255, 16, 132, 4, 142, 123, 216, 219, 233, 248, 89,
    ]
}

/// What the search for the token account address of a wallet and a mint
/// gives: the address found under the associated-token program for the
/// wallet, the token program and the mint as seeds, and its bump.
pub open spec fn associated_address_search(wallet: Seq<u8>, mint: Seq<u8>) -> Option<
    (Seq<u8>, u8),
> {
    searched_address(seq![wallet, token_program_id(), mint], associated_token_program_id())
}

/// The associated-token program's instruction that creates the token
/// account of a wallet and a mint.
pub uninterp spec fn associated_account_wire(
    payer: Seq<u8>,
    wallet: Seq<u8>,
    mint: Seq<u8>,
) -> WireInstructionView;

/// The token program's instruction that mints tokens, if its library builds
/// one.
pub uninterp spec fn minting_wire(
    mint: Seq<u8>,
    destination: Seq<u8>,
    authority: Seq<u8>,
    amount: u64,
    decimals: u8,
) -> Option<WireInstructionView>;

/// The token program's instruction that moves tokens, if its library builds
/// one.
pub uninterp spec fn token_transfer_wire(
    source: Seq<u8>,
    mint: Seq<u8>,
    destination: Seq<u8>,
    authority: Seq<u8>,
    amount: u64,
    decimals: u8,
) -> Option<WireInstructionView>;

/// Calls `system_instruction::create_account_with_seed` of
/// `solana_program`, with the payer as the base of the seeded address, and
/// copies the instruction it returns field by field. The result depends on
/// the arguments alone.
#[verifier::external_body]
fn build_record_creation(
    payer: &Address,
    record: &Address,
    seed: &str,
    lamports: u64,
    space: u64,
    owner: &Address,
) -> (wire: WireInstruction)
    ensures
        wire@ == record_creation_wire(payer@, record@, seed@, lamports, space, owner@),
{
    let payer = Pubkey::new_from_array(payer.bytes);
    let record = Pubkey::new_from_array(record.bytes);
    let owner = Pubkey::new_from_array(owner.bytes);
    let ix = system_instruction::create_account_with_seed(
        &payer, &record, &payer, seed, lamports, space, &owner);
    let named = ix.accounts.iter().map(|m| WireAccount {
        address: Address { bytes: m.pubkey.to_bytes() },
        is_signer: m.is_signer,
        is_writable: m.is_writable,
    });
    let program = Address { bytes: ix.program_id.to_bytes() };
    WireInstruction { program, accounts: named.collect(), data: ix.data }
}

/// Calls `system_instruction::transfer` of `solana_program` and copies the
/// instruction it returns field by field. The result depends on the
/// arguments alone.
#[verifier::external_body]
fn build_native_transfer(from: &Address, to: &Address, lamports: u64) -> (wire: WireInstruction)
    ensures
        wire@ == native_transfer_wire(from@, to@, lamports),
{
    let from = Pubkey::new_from_array(from.bytes);
    let to = Pubkey::new_from_array(to.bytes);
    let ix = system_instruction::transfer(&from, &to, lamports);
    let named = ix.accounts.iter().map(|m| WireAccount {
        address: Address { bytes: m.pubkey.to_bytes() },
        is_signer: m.is_signer,
        is_writable: m.is_writable,
    });
    let program = Address { bytes: ix.program_id.to_bytes() };
    WireInstruction { program, accounts: named.collect(), data: ix.data }
}

/// Calls `instruction::initialize_mint2` of `spl_token` for the token
/// program's own id and copies the instruction it returns field by field.
/// The result depends on the arguments alone; a refusal of the call comes
/// back as `None`.
#[verifier::external_body]
fn build_mint_setup(
    mint: &Address,
    mint_authority: &Address,
    freeze_authority: &Address,
    decimals: u8,
) -> (wire: Option<WireInstruction>)
    ensures
        wire_view(wire) == mint_setup_wire(mint@, mint_authority@, freeze_authority@, decimals),
{
    let mint = Pubkey::new_from_array(mint.bytes);
    let minter = Pubkey::new_from_array(mint_authority.bytes);
    let freezer = Pubkey::new_from_array(freeze_authority.bytes);
    let built = spl_token::instruction::initialize_mint2(
        &spl_token::id(), &mint, &minter, Some(&freezer), decimals);
    built.ok().map(|ix| WireInstruction {
        program: Address { bytes: ix.program_id.to_bytes() },
        accounts: ix.accounts.iter().map(|m| WireAccount {
            address: Address { bytes: m.pubkey.to_bytes() },
            is_signer: m.is_signer,
            is_writable: m.is_writable,
        }).collect(),
        data: ix.data,
    })
}

/// Calls `instruction::create_associated_token_account` of
/// `spl_associated_token_account` and copies the instruction it returns
/// field by field. The result depends on the arguments alone. The call
/// derives the token account address with `Pubkey::find_program_address`,
/// for the wallet, the token program's id and the mint as seeds under the
/// associated-token program's id, and panics where that search finds
/// nothing, which the precondition rules out.
#[verifier::external_body]
fn build_associated_account(payer: &Address, wallet: &Address, mint: &Address) -> (wire:
    WireInstruction)
    requires
        associated_address_search(wallet@, mint@) is Some,
    ensures
        wire@ == associated_account_wire(payer@, wallet@, mint@),
{
    let payer = Pubkey::new_from_array(payer.bytes);
    let wallet = Pubkey::new_from_array(wallet.bytes);
    let mint = Pubkey::new_from_array(mint.bytes);
    let ix = spl_associated_token_account::instruction::create_associated_token_account(
        &payer, &wallet, &mint);
    let named = ix.accounts.iter().map(|m| WireAccount {
        address: Address { bytes: m.pubkey.to_bytes() },
        is_signer: m.is_signer,
        is_writable: m.is_writable,
    });
    let program = Address { bytes: ix.program_id.to_bytes() };
    WireInstruction { program, accounts: named.collect(), data: ix.data }
}

/// Calls `instruction::mint_to_checked` of `spl_token` for the token
/// program's own id, with the authority as the only signer, and copies the
/// instruction it returns field by field. The result depends on the
/// arguments alone; a refusal of the call comes back as `None`.
#[verifier::external_body]
fn build_minting(
    mint: &Address,
    destination: &Address,
    authority: &Address,
    amount: u64,
    decimals: u8,
) -> (wire: Option<WireInstruction>)
    ensures
        wire_view(wire) == minting_wire(mint@, destination@, authority@, amount, decimals),
{
    let mint = Pubkey::new_from_array(mint.bytes);
    let destination = Pubkey::new_from_array(destination.bytes);
    let authority = Pubkey::new_from_array(authority.bytes);
    let built = spl_token::instruction::mint_to_checked(
        &spl_token::id(), &mint, &destination, &authority, &[], amount, decimals);
    built.ok().map(|ix| WireInstruction {
        program: Address { bytes: ix.program_id.to_bytes() },
        accounts: ix.accounts.iter().map(|m| WireAccount {
            address: Address { bytes: m.pubkey.to_bytes() },
            is_signer: m.is_signer,
            is_writable: m.is_writable,
        }).collect(),
        data: ix.data,
    })
}

/// Calls `instruction::transfer_checked` of `spl_token` for the token
/// program's own id, with the authority as the only signer, and copies the
/// instruction it returns field by field. The result depends on the
/// arguments alone; a refusal of the call comes back as `None`.
#[verifier::external_body]
fn build_token_transfer(
    source: &Address,
    mint: &Address,
    destination: &Address,
    authority: &Address,
    amount: u64,
    decimals: u8,
) -> (wire: Option<WireInstruction>)
    ensures
        wire_view(wire) == token_transfer_wire(
            source@,
            mint@,
            destination@,
            authority@,
            amount,
            decimals,
        ),
{
    let (source, mint) = (Pubkey::new_from_array(source.bytes), Pubkey::new_from_array(mint.bytes));
    let destination = Pubkey::new_from_array(destination.bytes);
    let authority = Pubkey::new_from_array(authority.bytes);
    let built = spl_token::instruction::transfer_checked(
        &spl_token::id(), &source, &mint, &destination, &authority, &[], amount, decimals);
    built.ok().map(|ix| WireInstruction {
        program: Address { bytes: ix.program_id.to_bytes() },
        accounts: ix.accounts.iter().map(|m| WireAccount {
            address: Address { bytes: m.pubkey.to_bytes() },
            is_signer: m.is_signer,
            is_writable: m.is_writable,
        }).collect(),
        data: ix.data,
    })
}

/// The instruction for a token account, given what the search for its
/// address gave: there is none where the search found nothing.
pub open spec fn associated_account_instruction(
    searched: Option<(Seq<u8>, u8)>,
    payer: Seq<u8>,
    wallet: Seq<u8>,
    mint: Seq<u8>,
) -> Result<WireInstructionView, WireError> {
    match searched {
        Some(_) => Ok(associated_account_wire(payer, wallet, mint)),
        None => Err(WireError::InvalidSeeds),
    }
}

/// The address of the token program.
pub fn token_program() -> (id: Address)
    ensures
        id@ == token_program_id(),
{
    let id = Address {
        bytes: [
            6, 221, 246, 225, 215, 101, 161, 147, 217, 203, 225, 70, 206, 235, 121, 172, 28, 180,
            133, 237, 95, 91, 55, 145, 58, 140, 245, 133, 126, 255, 0, 169,
        ],
    };
    id
}

/// The address of the associated-token program.
pub fn associated_token_program() -> (id: Address)
    ensures
        id@ == associated_token_program_id(),
{
    let id = Address {
        bytes: [
            140, 151, 37, 143, 78, 36, 137, 241, 187, 61, 16, 41, 20, 142, 13, 131, 11, 90, 19,
            153, 218, 255, 16, 132, 4, 142, 123, 216, 219, 233, 248, 89,
        ],
    };
    id
}

/// Searches for the token account address of a wallet and a mint.
pub fn find_associated_address(wallet: &Address, mint: &Address) -> (found: Option<(Address, u8)>)
    ensures
        crate::derivation::derivation_view(found) == associated_address_search(wallet@, mint@),
{
    let mut seeds: Vec<Vec<u8>> = Vec::new();
    seeds.push(wallet.to_vec());
    seeds.push(token_program().to_vec());
    seeds.push(mint.to_vec());
    assert(seeds_view(seeds@) =~= seq![wallet@, token_program_id(), mint@]);
    search_program_address(&seeds, &associated_token_program())
}

fn from_token_library(built: Option<WireInstruction>) -> (wire: Result<WireInstruction, WireError>)
    ensures
        built_view(wire) == token_instruction(wire_view(built)),
{
    match built {
        Some(wire) => Ok(wire),
        None => Err(WireError::IncorrectProgramId),
    }
}

impl SubOperation {
    /// The form in which the ledger takes this sub-operation.
    pub open spec fn wire(self) -> Result<WireInstructionView, WireError> {
        match self {
            SubOperation::CreateRecord { payer, record, seed, lamports, space, owner } => Ok(
                record_creation_wire(payer@, record@, seed.text(), lamports, space, owner@),
            ),
            SubOperation::TransferNative { from, to, lamports } => Ok(
                native_transfer_wire(from@, to@, lamports),
            ),
            SubOperation::InitializeMint {
                mint,
                mint_authority,
                freeze_authority,
                decimals,
            } => token_instruction(
                mint_setup_wire(mint@, mint_authority@, freeze_authority@, decimals),
            ),
            SubOperation::CreateAssociatedAccount {
                payer,
                wallet,
                mint,
            } => associated_account_instruction(
                associated_address_search(wallet@, mint@),
                payer@,
                wallet@,
                mint@,
            ),
            SubOperation::MintTo {
                mint,
                destination,
                authority,
                amount,
                decimals,
            } => token_instruction(minting_wire(mint@, destination@, authority@, amount, decimals)),
            SubOperation::TransferTokens {
                source,
                mint,
                destination,
                authority,
                amount,
                decimals,
            } => token_instruction(
                token_transfer_wire(source@, mint@, destination@, authority@, amount, decimals),
            ),
        }
    }

    /// Builds the instruction for this sub-operation.
    pub fn instruction(&self) -> (built: Result<WireInstruction, WireError>)
        ensures
            built_view(built) == self.wire(),
    {
        match self {
            SubOperation::CreateRecord { payer, record, seed, lamports, space, owner } => Ok(
                build_record_creation(payer, record, seed.label(), *lamports, *space, owner),
            ),
            SubOperation::TransferNative { from, to, lamports } => Ok(
                build_native_transfer(from, to, *lamports),
            ),
            SubOperation::InitializeMint {
                mint,
                mint_authority,
                freeze_authority,
                decimals,
            } => from_token_library(
                build_mint_setup(mint, mint_authority, freeze_authority, *decimals),
            ),
            SubOperation::CreateAssociatedAccount { payer, wallet, mint } => {
                match find_associated_address(wallet, mint) {
                    Some(_) => Ok(build_associated_account(payer, wallet, mint)),
                    None => Err(WireError::InvalidSeeds),
                }
            },
            SubOperation::MintTo {
                mint,
                destination,
                authority,
                amount,
                decimals,
            } => from_token_library(
                build_minting(mint, destination, authority, *amount, *decimals),
            ),
            SubOperation::TransferTokens {
                source,
                mint,
                destination,
                authority,
                amount,
                decimals,
            } => from_token_library(
                build_token_transfer(source, mint, destination, authority, *amount, *decimals),
            ),
        }
    }
}

} // verus!
