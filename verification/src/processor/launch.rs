//! Launching a seller's token.

use crate::address::Address;
use crate::error::{viewed, DecenseError};
use crate::pricing::{
    base_units, base_units_of, initial_price, initial_price_of, BASE_UNITS_PER_TOKEN,
    INITIALIZATION_FEE, LIQUIDATE_PERCENTAGE, TOKEN_DECIMALS, USER_TREASURY_PERCENTAGE,
};
use crate::processor::{
    create_record, nothing_stored, record_creation, store, unsigned, without_signature, Processor,
};
use crate::runtime::{Account, Effects, EffectsView, Invocation, RecordSeed, SubOperation};
use crate::state::{PlatformState, PlatformStateView, UserState, UserStateView, USER_STATE_LEN,
};
use vstd::prelude::*;

verus! {

/// Place of the seller, who pays the fee and owns the token.
pub const SELLER: usize = 0;

/// Place of the mint of the seller's token.
pub const MINT: usize = 1;

/// Place of the seller record.
pub const SELLER_RECORD: usize = 2;

/// Place of the platform record.
pub const PLATFORM_RECORD: usize = 3;

/// Place of the treasury wallet.
pub const TREASURY: usize = 4;

/// Place of the seller's custody address.
pub const CUSTODY: usize = 5;

/// Place of the seller's token account.
pub const SELLER_TOKENS: usize = 6;

/// Place of the vault's token account.
pub const VAULT_TOKENS: usize = 7;

/// Accounts that launching a token takes: the eight above, and then the
/// token program, the rent sysvar, the associated-token program and the
/// system program.
pub const USER_ACCOUNTS: usize = 12;

/// Whether a treasury is the one that the platform record names. The
/// platform record must be populated.
pub open spec fn treasury_checked(platform_record: Seq<u8>, treasury: Seq<u8>) -> Result<
    (),
    DecenseError,
> {
    match PlatformStateView::decode_populated(platform_record) {
        Ok(platform) => if platform.platform_treasury_sol_wallet == treasury {
            Ok(())
        } else {
            Err(DecenseError::PlatformMismatch)
        },
        Err(e) => Err(e),
    }
}

/// The base units to mint for a supply of whole tokens, and the part of
/// them that goes to the vault: the units of half the supply, rounded down
/// to whole tokens.
pub open spec fn issuance_of(supply: u64) -> Result<(u64, u64), DecenseError> {
    match base_units_of(supply) {
        Some(minted) => Ok((minted, ((supply / 2) * BASE_UNITS_PER_TOKEN) as u64)),
        None => Err(DecenseError::MathError),
    }
}

/// The seller record after a launch: every field set from the launch, the
/// price at its first value, and the holder count as the record had it.
pub open spec fn launched_record(
    record: Seq<u8>,
    user: Seq<u8>,
    user_token_mint: Seq<u8>,
    user_ata: Seq<u8>,
    pda_ata: Seq<u8>,
    market_valuation: u64,
    supply: u64,
) -> Result<Seq<u8>, DecenseError> {
    match UserStateView::decode(record) {
        Ok(blank) => match initial_price_of(market_valuation, supply) {
            Some(current_price) => Ok(
                UserStateView {
                    is_initialized: true,
                    user,
                    market_valuation,
                    supply,
                    user_token_mint,
                    user_ata,
                    pda_ata,
                    user_treasury_percentage: USER_TREASURY_PERCENTAGE,
                    liquidate_percentage: LIQUIDATE_PERCENTAGE,
                    current_price,
                    holders: blank.holders,
                }.encode(),
            ),
            None => Err(DecenseError::MathError),
        },
        Err(e) => Err(e),
    }
}

/// What preparing a launch asks for: the fee goes from the seller to the
/// treasury, and the seller record is created.
pub open spec fn user_preparation(program_id: Address, accounts: Seq<Account>) -> Result<
    EffectsView,
    DecenseError,
> {
    if accounts.len() < USER_ACCOUNTS {
        Err(DecenseError::NotEnoughAccountKeys)
    } else {
        match treasury_checked(
            accounts[PLATFORM_RECORD as int].data@,
            accounts[TREASURY as int].key@,
        ) {
            Ok(_) => Ok(
                EffectsView {
                    invocations: seq![
                        unsigned(
                            SubOperation::TransferNative {
                                from: accounts[SELLER as int].key,
                                to: accounts[TREASURY as int].key,
                                lamports: INITIALIZATION_FEE,
                            },
                        ),
                        record_creation(
                            accounts[SELLER as int].key,
                            accounts[SELLER_RECORD as int].key,
                            RecordSeed::User,
                            USER_STATE_LEN,
                            program_id,
                        ),
                    ],
                    writes: Seq::empty(),
                },
            ),
            Err(e) => Err(e),
        }
    }
}

/// The sub-operations that issue a token: set up the mint under the
/// seller's authority, create the token accounts of the seller and of the
/// custody address, mint the supply to the seller, and move the vault's
/// part to the vault.
pub open spec fn issuance_steps(accounts: Seq<Account>, minted: u64, vaulted: u64) -> Seq<
    Invocation,
> {
    let seller = accounts[SELLER as int].key;
    let mint = accounts[MINT as int].key;
    seq![
        unsigned(
            SubOperation::InitializeMint {
                mint,
                mint_authority: seller,
                freeze_authority: seller,
                decimals: TOKEN_DECIMALS,
            },
        ),
        unsigned(SubOperation::CreateAssociatedAccount { payer: seller, wallet: seller, mint }),
        unsigned(
            SubOperation::CreateAssociatedAccount {
                payer: seller,
                wallet: accounts[CUSTODY as int].key,
                mint,
            },
        ),
        unsigned(
            SubOperation::MintTo {
                mint,
                destination: accounts[SELLER_TOKENS as int].key,
                authority: seller,
                amount: minted,
                decimals: TOKEN_DECIMALS,
            },
        ),
        unsigned(
            SubOperation::TransferTokens {
                source: accounts[SELLER_TOKENS as int].key,
                mint,
                destination: accounts[VAULT_TOKENS as int].key,
                authority: seller,
                amount: vaulted,
                decimals: TOKEN_DECIMALS,
            },
        ),
    ]
}

/// What a launch asks for: the token is issued and the seller record is
/// stored.
pub open spec fn user_initialization(
    accounts: Seq<Account>,
    market_valuation: u64,
    supply: u64,
) -> Result<EffectsView, DecenseError> {
    if accounts.len() < USER_ACCOUNTS {
        Err(DecenseError::NotEnoughAccountKeys)
    } else {
        match (
            treasury_checked(accounts[PLATFORM_RECORD as int].data@, accounts[TREASURY as int].key@),
            issuance_of(supply),
            launched_record(
                accounts[SELLER_RECORD as int].data@,
                accounts[SELLER as int].key@,
                accounts[MINT as int].key@,
                accounts[SELLER_TOKENS as int].key@,
                accounts[VAULT_TOKENS as int].key@,
                market_valuation,
                supply,
            ),
        ) {
            (Err(e), _, _) => Err(e),
            (Ok(_), Err(e), _) => Err(e),
            (Ok(_), Ok(_), Err(e)) => Err(e),
            (Ok(_), Ok((minted, vaulted)), Ok(record)) => Ok(
                EffectsView {
                    invocations: issuance_steps(accounts, minted, vaulted),
                    writes: seq![(SELLER_RECORD, record)],
                },
            ),
        }
    }
}

impl Processor {
    /// Checks a treasury against the platform record.
    pub fn check_treasury(platform_record: &[u8], treasury: &Address) -> (checked: Result<
        (),
        DecenseError,
    >)
        ensures
            checked == treasury_checked(platform_record@, treasury@),
    {
        let platform = PlatformState::unpack(platform_record)?;
        if platform.platform_treasury_sol_wallet == *treasury {
            Ok(())
        } else {
            Err(DecenseError::PlatformMismatch)
        }
    }

    /// Computes the base units to mint and the part of them for the vault.
    pub fn issuance(supply: u64) -> (amounts: Result<(u64, u64), DecenseError>)
        ensures
            amounts == issuance_of(supply),
    {
        let minted = base_units(supply)?;
        let vaulted = (supply / 2) * BASE_UNITS_PER_TOKEN;
        Ok((minted, vaulted))
    }

    /// Populates a seller record for a launch.
    pub fn launch_record(
        record: &[u8],
        user: &Address,
        user_token_mint: &Address,
        user_ata: &Address,
        pda_ata: &Address,
        market_valuation: u64,
        supply: u64,
    ) -> (launched: Result<Vec<u8>, DecenseError>)
        ensures
            viewed(launched) == launched_record(
                record@,
                user@,
                user_token_mint@,
                user_ata@,
                pda_ata@,
                market_valuation,
                supply,
            ),
    {
        let mut state = UserState::unpack_unchecked(record)?;
        state.is_initialized = true;
        state.user_treasury_percentage = USER_TREASURY_PERCENTAGE;
        state.user_token_mint = *user_token_mint;
        state.user_ata = *user_ata;
        state.user = *user;
        state.pda_ata = *pda_ata;
        state.market_valuation = market_valuation;
        state.supply = supply;
        state.current_price = initial_price(market_valuation, supply)?;
        state.liquidate_percentage = LIQUIDATE_PERCENTAGE;
        Ok(state.to_bytes())
    }

    /// First step of launching a token.
    pub fn prepare_initialize_user(program_id: &Address, accounts: &[Account]) -> (effects:
        Result<Effects, DecenseError>)
        ensures
            viewed(effects) == user_preparation(*program_id, accounts@),
    {
        if accounts.len() < USER_ACCOUNTS {
            return Err(DecenseError::NotEnoughAccountKeys);
        }
        Processor::check_treasury(
            accounts[PLATFORM_RECORD].data.as_slice(),
            &accounts[TREASURY].key,
        )?;
        let seller = accounts[SELLER].key;
        let mut invocations: Vec<Invocation> = Vec::new();
        invocations.push(
            without_signature(
                SubOperation::TransferNative {
                    from: seller,
                    to: accounts[TREASURY].key,
                    lamports: INITIALIZATION_FEE,
                },
            ),
        );
        invocations.push(
            create_record(
                &seller,
                &accounts[SELLER_RECORD].key,
                RecordSeed::User,
                USER_STATE_LEN,
                program_id,
            ),
        );
        let effects = Effects { invocations, writes: nothing_stored() };
        assert(effects@.invocations =~= user_preparation(*program_id, accounts@)->Ok_0.invocations);
        Ok(effects)
    }

    /// Second step of launching a token.
    pub fn process_initialize_user(
        accounts: &[Account],
        market_valuation: u64,
        supply: u64,
    ) -> (effects: Result<Effects, DecenseError>)
        ensures
            viewed(effects) == user_initialization(accounts@, market_valuation, supply),
    {
        if accounts.len() < USER_ACCOUNTS {
            return Err(DecenseError::NotEnoughAccountKeys);
        }
        Processor::check_treasury(
            accounts[PLATFORM_RECORD].data.as_slice(),
            &accounts[TREASURY].key,
        )?;
        let (minted, vaulted) = Processor::issuance(supply)?;
        let seller = accounts[SELLER].key;
        let mint = accounts[MINT].key;
        let seller_tokens = accounts[SELLER_TOKENS].key;
        let vault_tokens = accounts[VAULT_TOKENS].key;
        let record = Processor::launch_record(
            accounts[SELLER_RECORD].data.as_slice(),
            &seller,
            &mint,
            &seller_tokens,
            &vault_tokens,
            market_valuation,
            supply,
        )?;
        let mut invocations: Vec<Invocation> = Vec::new();
        invocations.push(
            without_signature(
                SubOperation::InitializeMint {
                    mint,
                    mint_authority: seller,
                    freeze_authority: seller,
                    decimals: TOKEN_DECIMALS,
                },
            ),
        );
        invocations.push(
            without_signature(
                SubOperation::CreateAssociatedAccount { payer: seller, wallet: seller, mint },
            ),
        );
        invocations.push(
            without_signature(
                SubOperation::CreateAssociatedAccount {
                    payer: seller,
                    wallet: accounts[CUSTODY].key,
                    mint,
                },
            ),
        );
        invocations.push(
            without_signature(
                SubOperation::MintTo {
                    mint,
                    destination: seller_tokens,
                    authority: seller,
                    amount: minted,
                    decimals: TOKEN_DECIMALS,
                },
            ),
        );
        invocations.push(
            without_signature(
                SubOperation::TransferTokens {
                    source: seller_tokens,
                    mint,
                    destination: vault_tokens,
                    authority: seller,
                    amount: vaulted,
                    decimals: TOKEN_DECIMALS,
                },
            ),
        );
        assert(invocations@ =~= issuance_steps(accounts@, minted, vaulted));
        Ok(Effects { invocations, writes: store(SELLER_RECORD, record) })
    }
}

/// A launched record, read back, is populated, names the seller, the mint
/// and the two token accounts, gives each share as 50 percent, and holds
/// as its price the whole number of native units per token, scaled.
pub proof fn lemma_launch_sets_the_first_price(
    record: Seq<u8>,
    user: Seq<u8>,
    user_token_mint: Seq<u8>,
    user_ata: Seq<u8>,
    pda_ata: Seq<u8>,
    market_valuation: u64,
    supply: u64,
)
    requires
        user.len() == 32,
        user_token_mint.len() == 32,
        user_ata.len() == 32,
        pda_ata.len() == 32,
        launched_record(
            record,
            user,
            user_token_mint,
            user_ata,
            pda_ata,
            market_valuation,
            supply,
        ) is Ok,
    ensures
        ({
            let launched = launched_record(
                record,
                user,
                user_token_mint,
                user_ata,
                pda_ata,
                market_valuation,
                supply,
            )->Ok_0;
            &&& supply > 0
            &&& (market_valuation / supply) * 1_000_000_000 <= u64::MAX
            &&& UserStateView::decode_populated(launched) == Ok::<UserStateView, DecenseError>(
                UserStateView {
                    is_initialized: true,
                    user,
                    market_valuation,
                    supply,
                    user_token_mint,
                    user_ata,
                    pda_ata,
                    user_treasury_percentage: 50,
                    liquidate_percentage: 50,
                    current_price: ((market_valuation / supply) * 1_000_000_000) as u64,
                    holders: UserStateView::decode(record)->Ok_0.holders,
                },
            )
        }),
{
    crate::state::lemma_user_round_trip(
        UserStateView {
            is_initialized: true,
            user,
            market_valuation,
            supply,
            user_token_mint,
            user_ata,
            pda_ata,
            user_treasury_percentage: 50,
            liquidate_percentage: 50,
            current_price: ((market_valuation / supply) * 1_000_000_000) as u64,
            holders: UserStateView::decode(record)->Ok_0.holders,
        },
    );
}

} // verus!
