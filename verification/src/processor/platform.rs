//! Setting up the platform.

use crate::address::Address;
use crate::error::{viewed, DecenseError};
use crate::processor::{create_record, nothing_stored, record_creation, store, Processor};
use crate::runtime::{Account, Effects, EffectsView, Invocation, RecordSeed};
use crate::state::{PlatformState, PlatformStateView, PLATFORM_STATE_LEN};
use vstd::prelude::*;

verus! {

/// Place of the administrator, who pays for the platform record.
pub const ADMIN: usize = 0;

/// Place of the platform record.
pub const PLATFORM_RECORD: usize = 1;

/// Place of the treasury wallet.
pub const TREASURY: usize = 2;

/// Accounts that setting up the platform takes: the three above and the
/// system program.
pub const PLATFORM_ACCOUNTS: usize = 4;

/// What preparing the platform asks for: the platform record is created if
/// it holds no bytes yet.
pub open spec fn platform_preparation(program_id: Address, accounts: Seq<Account>) -> Result<
    EffectsView,
    DecenseError,
> {
    if accounts.len() < PLATFORM_ACCOUNTS {
        Err(DecenseError::NotEnoughAccountKeys)
    } else {
        Ok(
            EffectsView {
                invocations: if accounts[PLATFORM_RECORD as int].data@.len() == 0 {
                    seq![
                        record_creation(
                            accounts[ADMIN as int].key,
                            accounts[PLATFORM_RECORD as int].key,
                            RecordSeed::Platform,
                            PLATFORM_STATE_LEN,
                            program_id,
                        ),
                    ]
                } else {
                    Seq::empty()
                },
                writes: Seq::empty(),
            },
        )
    }
}

/// The platform record after a stamp: populated, with the given treasury.
/// A record that cannot be read is not stamped.
pub open spec fn stamped_platform(record: Seq<u8>, treasury: Seq<u8>) -> Result<
    Seq<u8>,
    DecenseError,
> {
    match PlatformStateView::decode(record) {
        Ok(_) => Ok(
            PlatformStateView { is_initialized: true, platform_treasury_sol_wallet: treasury }.encode(),
        ),
        Err(e) => Err(e),
    }
}

/// What setting up the platform asks for: the stamped record is stored.
pub open spec fn platform_initialization(accounts: Seq<Account>) -> Result<
    EffectsView,
    DecenseError,
> {
    if accounts.len() < PLATFORM_ACCOUNTS {
        Err(DecenseError::NotEnoughAccountKeys)
    } else {
        match stamped_platform(
            accounts[PLATFORM_RECORD as int].data@,
            accounts[TREASURY as int].key@,
        ) {
            Ok(record) => Ok(
                EffectsView { invocations: Seq::empty(), writes: seq![(PLATFORM_RECORD, record)] },
            ),
            Err(e) => Err(e),
        }
    }
}

impl Processor {
    /// Stamps a platform record with a treasury.
    pub fn stamp_platform(record: &[u8], treasury: &Address) -> (stamped: Result<
        Vec<u8>,
        DecenseError,
    >)
        ensures
            viewed(stamped) == stamped_platform(record@, treasury@),
    {
        let mut state = PlatformState::unpack_unchecked(record)?;
        state.is_initialized = true;
        state.platform_treasury_sol_wallet = *treasury;
        Ok(state.to_bytes())
    }

    /// First step of setting up the platform.
    pub fn prepare_initialize_platform(program_id: &Address, accounts: &[Account]) -> (effects:
        Result<Effects, DecenseError>)
        ensures
            viewed(effects) == platform_preparation(*program_id, accounts@),
    {
        if accounts.len() < PLATFORM_ACCOUNTS {
            return Err(DecenseError::NotEnoughAccountKeys);
        }
        let mut invocations: Vec<Invocation> = Vec::new();
        if accounts[PLATFORM_RECORD].data.len() == 0 {
            invocations.push(
                create_record(
                    &accounts[ADMIN].key,
                    &accounts[PLATFORM_RECORD].key,
                    RecordSeed::Platform,
                    PLATFORM_STATE_LEN,
                    program_id,
                ),
            );
        }
        let effects = Effects { invocations, writes: nothing_stored() };
        Ok(effects)
    }

    /// Second step of setting up the platform: the record is marked as
    /// populated and stamped with the treasury, whoever asks and whether or
    /// not it was stamped before.
    pub fn process_initialize_platform(accounts: &[Account]) -> (effects: Result<
        Effects,
        DecenseError,
    >)
        ensures
            viewed(effects) == platform_initialization(accounts@),
    {
        if accounts.len() < PLATFORM_ACCOUNTS {
            return Err(DecenseError::NotEnoughAccountKeys);
        }
        let record = Processor::stamp_platform(
            accounts[PLATFORM_RECORD].data.as_slice(),
            &accounts[TREASURY].key,
        )?;
        Ok(Effects { invocations: Vec::new(), writes: store(PLATFORM_RECORD, record) })
    }
}

/// A stamped platform record, read back, is populated and names the
/// treasury it was stamped with.
pub proof fn lemma_stamped_platform_is_populated(record: Seq<u8>, treasury: Seq<u8>)
    requires
        treasury.len() == 32,
        stamped_platform(record, treasury) is Ok,
    ensures
        PlatformStateView::decode_populated(stamped_platform(record, treasury)->Ok_0) == Ok::<
            PlatformStateView,
            DecenseError,
        >(PlatformStateView { is_initialized: true, platform_treasury_sol_wallet: treasury }),
{
    crate::state::lemma_platform_round_trip(
        PlatformStateView { is_initialized: true, platform_treasury_sol_wallet: treasury },
    );
}

/// Stamping a platform record a second time with the same treasury leaves
/// it as the first stamp left it, and a stamped record is never created
/// anew.
pub proof fn lemma_restamping_changes_nothing(record: Seq<u8>, treasury: Seq<u8>)
    requires
        treasury.len() == 32,
        stamped_platform(record, treasury) is Ok,
    ensures
        stamped_platform(stamped_platform(record, treasury)->Ok_0, treasury) == stamped_platform(
            record,
            treasury,
        ),
        stamped_platform(record, treasury)->Ok_0.len() == PLATFORM_STATE_LEN,
{
    crate::state::lemma_platform_round_trip(
        PlatformStateView { is_initialized: true, platform_treasury_sol_wallet: treasury },
    );
}

} // verus!
