use decense::address::Address;
use decense::custody;
use decense::error::DecenseError;
use decense::processor::exchange::EXCHANGE_ACCOUNTS;
use decense::processor::launch::USER_ACCOUNTS;
use decense::processor::platform::PLATFORM_ACCOUNTS;
use decense::processor::transfer::{DEPOSIT, TRANSFER_ACCOUNTS, WITHDRAW};
use decense::processor::Processor;
use decense::processor::{exchange, launch, platform, transfer};
use decense::runtime::{
    Account, CustodySeeds, Effects, Invocation, RecordSeed, RecordWrite, SubOperation,
};
use decense::state::{BuyerState, PlatformState, UserState};
use solana_program::program_option::COption;
use solana_program::program_pack::Pack;
use solana_program::pubkey::Pubkey;
use solana_program::rent::Rent;
use spl_token::state::{Account as TokenAccount, AccountState};

fn address(fill: u8) -> Address {
    Address { bytes: [fill; 32] }
}

fn account(fill: u8, data: Vec<u8>) -> Account {
    Account { key: address(fill), data }
}

fn token_account(amount: u64) -> Vec<u8> {
    let account = TokenAccount {
        mint: Pubkey::new_from_array([1; 32]),
        owner: Pubkey::new_from_array([2; 32]),
        amount,
        delegate: COption::None,
        state: AccountState::Initialized,
        is_native: COption::None,
        delegated_amount: 0,
        close_authority: COption::None,
    };
    let mut data = vec![0u8; TokenAccount::LEN];
    TokenAccount::pack(account, &mut data).unwrap();
    data
}

fn unsigned(operation: SubOperation) -> Invocation {
    Invocation { operation, signer: None }
}

const PROGRAM: u8 = 100;
const ADMIN: u8 = 1;
const PLATFORM_RECORD: u8 = 2;
const TREASURY: u8 = 3;
const SELLER: u8 = 10;
const MINT: u8 = 11;
const SELLER_RECORD: u8 = 12;
const SELLER_ATA: u8 = 13;
const VAULT_ATA: u8 = 14;
const BUYER: u8 = 20;
const BUYER_RECORD: u8 = 21;
const BUYER_ATA: u8 = 22;

fn platform_record(treasury: u8) -> Vec<u8> {
    PlatformState { is_initialized: true, platform_treasury_sol_wallet: address(treasury) }
        .to_bytes()
}

fn seller_state(current_price: u64, holders: u64) -> UserState {
    UserState {
        is_initialized: true,
        user: address(SELLER),
        market_valuation: 1_000_000,
        supply: 1000,
        user_token_mint: address(MINT),
        user_ata: address(SELLER_ATA),
        pda_ata: address(VAULT_ATA),
        user_treasury_percentage: 50,
        liquidate_percentage: 50,
        current_price,
        holders,
    }
}

fn buyer_state(holding: u64) -> BuyerState {
    BuyerState { is_initialized: true, buyer: address(BUYER), current_holding_in_tokens: holding }
}

fn custody_of_seller() -> (Address, u8) {
    custody::derive(&address(PROGRAM), &address(SELLER)).unwrap()
}

fn platform_accounts(record: Vec<u8>) -> Vec<Account> {
    vec![
        account(ADMIN, vec![]),
        account(PLATFORM_RECORD, record),
        account(TREASURY, vec![]),
        account(0, vec![]),
    ]
}

fn user_accounts(platform: Vec<u8>, treasury: u8, seller_record: Vec<u8>) -> Vec<Account> {
    vec![
        account(SELLER, vec![]),
        account(MINT, vec![]),
        account(SELLER_RECORD, seller_record),
        account(PLATFORM_RECORD, platform),
        account(treasury, vec![]),
        Account { key: custody_of_seller().0, data: vec![] },
        account(SELLER_ATA, vec![]),
        account(VAULT_ATA, vec![]),
        account(90, vec![]),
        account(91, vec![]),
        account(92, vec![]),
        account(0, vec![]),
    ]
}

fn exchange_accounts(
    buyer_record: Vec<u8>,
    buyer_ata: Vec<u8>,
    seller_record: Vec<u8>,
    custody: Address,
    vault_ata: Vec<u8>,
) -> Vec<Account> {
    vec![
        account(BUYER, vec![]),
        account(BUYER_RECORD, buyer_record),
        account(BUYER_ATA, buyer_ata),
        account(SELLER, vec![]),
        account(MINT, vec![]),
        account(SELLER_RECORD, seller_record),
        Account { key: custody, data: vec![] },
        account(VAULT_ATA, vault_ata),
        account(90, vec![]),
        account(91, vec![]),
        account(92, vec![]),
        account(0, vec![]),
    ]
}

fn transfer_accounts(seller_record: Vec<u8>, trader_ata: Vec<u8>, custody: Address) -> Vec<Account> {
    vec![
        account(SELLER, vec![]),
        account(SELLER_RECORD, seller_record),
        account(MINT, vec![]),
        account(BUYER, vec![]),
        account(BUYER_ATA, trader_ata),
        Account { key: custody, data: vec![] },
        account(VAULT_ATA, token_account(5_000_000)),
        account(90, vec![]),
    ]
}

fn exchange_data(asked_price: u64, quantity: u64) -> Vec<u8> {
    let mut data = vec![2u8];
    data.extend_from_slice(&asked_price.to_le_bytes());
    data.extend_from_slice(&quantity.to_le_bytes());
    data
}

fn transfer_data(action: u64, amount: u64) -> Vec<u8> {
    let mut data = vec![3u8];
    data.extend_from_slice(&action.to_le_bytes());
    data.extend_from_slice(&amount.to_le_bytes());
    data
}

#[test]
fn account_counts_are_as_the_operations_list_them() {
    assert_eq!(PLATFORM_ACCOUNTS, 4);
    assert_eq!(USER_ACCOUNTS, 12);
    assert_eq!(EXCHANGE_ACCOUNTS, 12);
    assert_eq!(TRANSFER_ACCOUNTS, 8);
    assert_eq!(DEPOSIT, 0);
    assert_eq!(WITHDRAW, 1);
}

#[test]
fn accounts_stand_at_their_places() {
    assert_eq!((platform::ADMIN, platform::PLATFORM_RECORD, platform::TREASURY), (0, 1, 2));
    assert_eq!(
        (
            launch::SELLER,
            launch::MINT,
            launch::SELLER_RECORD,
            launch::PLATFORM_RECORD,
            launch::TREASURY,
            launch::CUSTODY,
            launch::SELLER_TOKENS,
            launch::VAULT_TOKENS
        ),
        (0, 1, 2, 3, 4, 5, 6, 7)
    );
    assert_eq!(
        (
            exchange::BUYER,
            exchange::BUYER_RECORD,
            exchange::BUYER_TOKENS,
            exchange::SELLER,
            exchange::MINT,
            exchange::SELLER_RECORD,
            exchange::CUSTODY,
            exchange::VAULT_TOKENS
        ),
        (0, 1, 2, 3, 4, 5, 6, 7)
    );
    assert_eq!(
        (
            transfer::SELLER,
            transfer::SELLER_RECORD,
            transfer::MINT,
            transfer::TRADER,
            transfer::TRADER_TOKENS,
            transfer::CUSTODY,
            transfer::VAULT_TOKENS
        ),
        (0, 1, 2, 3, 4, 5, 6)
    );
}

#[test]
fn preparing_the_platform_creates_an_empty_record() {
    let accounts = platform_accounts(vec![]);
    let effects = Processor::prepare_initialize_platform(&address(PROGRAM), &accounts).unwrap();
    assert_eq!(
        effects,
        Effects {
            invocations: vec![unsigned(SubOperation::CreateRecord {
                payer: address(ADMIN),
                record: address(PLATFORM_RECORD),
                seed: RecordSeed::Platform,
                lamports: 1_120_560,
                space: 33,
                owner: address(PROGRAM),
            })],
            writes: vec![],
        }
    );
}

#[test]
fn records_are_funded_to_the_rent_exempt_minimum() {
    let accounts = platform_accounts(vec![]);
    let effects = Processor::prepare_initialize_platform(&address(PROGRAM), &accounts).unwrap();
    match effects.invocations[0].operation {
        SubOperation::CreateRecord { lamports, space, .. } => {
            assert_eq!(lamports, Rent::default().minimum_balance(33));
            assert_eq!(space, 33);
        }
        _ => panic!("the platform record is created first"),
    }
    let accounts = user_accounts(platform_record(TREASURY), TREASURY, vec![]);
    let effects = Processor::prepare_initialize_user(&address(PROGRAM), &accounts).unwrap();
    match effects.invocations[1].operation {
        SubOperation::CreateRecord { lamports, space, .. } => {
            assert_eq!(lamports, Rent::default().minimum_balance(163));
            assert_eq!(lamports, 2_025_360);
            assert_eq!(space, 163);
        }
        _ => panic!("the seller record is created second"),
    }
    let custody = custody_of_seller().0;
    let accounts = exchange_accounts(vec![], vec![], vec![], custody, vec![]);
    let effects = Processor::prepare_exchange(&address(PROGRAM), &accounts).unwrap();
    match effects.invocations[0].operation {
        SubOperation::CreateRecord { lamports, space, .. } => {
            assert_eq!(lamports, Rent::default().minimum_balance(41));
            assert_eq!(lamports, 1_176_240);
            assert_eq!(space, 41);
        }
        _ => panic!("the buyer record is created first"),
    }
}

#[test]
fn preparing_the_platform_leaves_a_record_that_exists_alone() {
    let accounts = platform_accounts(vec![0u8; 33]);
    assert_eq!(
        Processor::prepare_initialize_platform(&address(PROGRAM), &accounts),
        Ok(Effects { invocations: vec![], writes: vec![] })
    );
}

#[test]
fn initializing_the_platform_stamps_a_fresh_record() {
    let accounts = platform_accounts(vec![0u8; 33]);
    assert_eq!(
        Processor::process_initialize_platform(&accounts),
        Ok(Effects {
            invocations: vec![],
            writes: vec![RecordWrite { account: 1, data: platform_record(TREASURY) }],
        })
    );
}

#[test]
fn initializing_the_platform_twice_is_the_same_as_once() {
    let accounts = platform_accounts(vec![0u8; 33]);
    let once = Processor::process_initialize_platform(&accounts).unwrap();
    let stamped = platform_accounts(once.writes[0].data.to_vec());
    assert_eq!(
        Processor::prepare_initialize_platform(&address(PROGRAM), &stamped),
        Ok(Effects { invocations: vec![], writes: vec![] })
    );
    let twice = Processor::process_initialize_platform(&stamped).unwrap();
    assert_eq!(twice, once);
}

#[test]
fn initializing_the_platform_again_overwrites_the_treasury() {
    let accounts = platform_accounts(platform_record(77));
    assert_eq!(
        Processor::process_initialize_platform(&accounts),
        Ok(Effects {
            invocations: vec![],
            writes: vec![RecordWrite { account: 1, data: platform_record(TREASURY) }],
        })
    );
}

#[test]
fn a_platform_record_that_cannot_be_read_is_not_stamped() {
    assert_eq!(
        Processor::process_initialize_platform(&platform_accounts(vec![])),
        Err(DecenseError::InvalidAccountData)
    );
    assert_eq!(
        Processor::process_initialize_platform(&platform_accounts(vec![2u8; 33])),
        Err(DecenseError::InvalidAccountData)
    );
    assert_eq!(
        Processor::stamp_platform(&[0u8; 34], &address(TREASURY)),
        Err(DecenseError::InvalidAccountData)
    );
    assert_eq!(
        Processor::stamp_platform(&[0u8; 33], &address(TREASURY)),
        Ok(platform_record(TREASURY))
    );
}

#[test]
fn every_operation_wants_all_of_its_accounts() {
    let program = address(PROGRAM);
    let mut accounts = platform_accounts(vec![0u8; 33]);
    accounts.pop();
    assert_eq!(
        Processor::prepare_initialize_platform(&program, &accounts),
        Err(DecenseError::NotEnoughAccountKeys)
    );
    assert_eq!(
        Processor::process_initialize_platform(&accounts),
        Err(DecenseError::NotEnoughAccountKeys)
    );
    let mut accounts = user_accounts(platform_record(TREASURY), TREASURY, vec![0u8; 163]);
    accounts.pop();
    assert_eq!(
        Processor::prepare_initialize_user(&program, &accounts),
        Err(DecenseError::NotEnoughAccountKeys)
    );
    assert_eq!(
        Processor::process_initialize_user(&accounts, 1_000_000, 1000),
        Err(DecenseError::NotEnoughAccountKeys)
    );
    let custody = custody_of_seller().0;
    let mut accounts = exchange_accounts(vec![], vec![], vec![], custody, vec![]);
    accounts.pop();
    assert_eq!(
        Processor::prepare_exchange(&program, &accounts),
        Err(DecenseError::NotEnoughAccountKeys)
    );
    assert_eq!(
        Processor::process_exchange(&program, &accounts, 1, 1),
        Err(DecenseError::NotEnoughAccountKeys)
    );
    let mut accounts = transfer_accounts(vec![], vec![], custody);
    accounts.pop();
    assert_eq!(
        Processor::prepare_send_receive_tokens(&program, &accounts, 0, 1),
        Err(DecenseError::NotEnoughAccountKeys)
    );
    assert_eq!(
        Processor::process_send_receive_tokens(&program, &accounts, 0, 1),
        Err(DecenseError::NotEnoughAccountKeys)
    );
    assert_eq!(
        Processor::unpack_and_process_instruction(&program, &[], &[0]),
        Err(DecenseError::NotEnoughAccountKeys)
    );
    assert_eq!(
        Processor::unpack_and_prepare_instruction(&program, &[], &exchange_data(1, 1)),
        Err(DecenseError::NotEnoughAccountKeys)
    );
}

#[test]
fn preparing_a_launch_charges_the_fee_and_creates_the_record() {
    let accounts = user_accounts(platform_record(TREASURY), TREASURY, vec![]);
    assert_eq!(
        Processor::prepare_initialize_user(&address(PROGRAM), &accounts),
        Ok(Effects {
            invocations: vec![
                unsigned(SubOperation::TransferNative {
                    from: address(SELLER),
                    to: address(TREASURY),
                    lamports: 1_000_000_000,
                }),
                unsigned(SubOperation::CreateRecord {
                    payer: address(SELLER),
                    record: address(SELLER_RECORD),
                    seed: RecordSeed::User,
                    lamports: 2_025_360,
                    space: 163,
                    owner: address(PROGRAM),
                }),
            ],
            writes: vec![],
        })
    );
}

#[test]
fn a_launch_with_another_treasury_is_a_platform_mismatch() {
    let accounts = user_accounts(platform_record(TREASURY), 4, vec![0u8; 163]);
    assert_eq!(
        Processor::prepare_initialize_user(&address(PROGRAM), &accounts),
        Err(DecenseError::PlatformMismatch)
    );
    assert_eq!(
        Processor::process_initialize_user(&accounts, 1_000_000, 1000),
        Err(DecenseError::PlatformMismatch)
    );
    assert_eq!(
        Processor::check_treasury(&platform_record(TREASURY), &address(4)),
        Err(DecenseError::PlatformMismatch)
    );
    assert_eq!(Processor::check_treasury(&platform_record(TREASURY), &address(TREASURY)), Ok(()));
}

#[test]
fn a_launch_wants_a_populated_platform_record() {
    let accounts = user_accounts(vec![0u8; 33], 0, vec![0u8; 163]);
    assert_eq!(
        Processor::prepare_initialize_user(&address(PROGRAM), &accounts),
        Err(DecenseError::UninitializedAccount)
    );
    assert_eq!(
        Processor::process_initialize_user(&accounts, 1_000_000, 1000),
        Err(DecenseError::UninitializedAccount)
    );
    let accounts = user_accounts(vec![], TREASURY, vec![0u8; 163]);
    assert_eq!(
        Processor::process_initialize_user(&accounts, 1_000_000, 1000),
        Err(DecenseError::InvalidAccountData)
    );
}

#[test]
fn a_launch_issues_the_token_and_stores_the_record() {
    let accounts = user_accounts(platform_record(TREASURY), TREASURY, vec![0u8; 163]);
    let custody = custody_of_seller().0;
    let effects = Processor::process_initialize_user(&accounts, 1_000_000, 1000).unwrap();
    assert_eq!(
        effects.invocations,
        vec![
            unsigned(SubOperation::InitializeMint {
                mint: address(MINT),
                mint_authority: address(SELLER),
                freeze_authority: address(SELLER),
                decimals: 4,
            }),
            unsigned(SubOperation::CreateAssociatedAccount {
                payer: address(SELLER),
                wallet: address(SELLER),
                mint: address(MINT),
            }),
            unsigned(SubOperation::CreateAssociatedAccount {
                payer: address(SELLER),
                wallet: custody,
                mint: address(MINT),
            }),
            unsigned(SubOperation::MintTo {
                mint: address(MINT),
                destination: address(SELLER_ATA),
                authority: address(SELLER),
                amount: 10_000_000,
                decimals: 4,
            }),
            unsigned(SubOperation::TransferTokens {
                source: address(SELLER_ATA),
                mint: address(MINT),
                destination: address(VAULT_ATA),
                authority: address(SELLER),
                amount: 5_000_000,
                decimals: 4,
            }),
        ]
    );
    assert_eq!(
        effects.writes,
        vec![RecordWrite { account: 2, data: seller_state(1_000_000_000_000, 0).to_bytes() }]
    );
}

#[test]
fn an_odd_supply_loses_half_a_token_to_the_floor() {
    assert_eq!(Processor::issuance(1001), Ok((10_010_000, 5_000_000)));
    assert_eq!(Processor::issuance(1), Ok((10_000, 0)));
    assert_eq!(Processor::issuance(0), Ok((0, 0)));
    assert_eq!(Processor::issuance(u64::MAX), Err(DecenseError::MathError));
}

#[test]
fn a_launch_with_no_supply_is_a_math_error() {
    let accounts = user_accounts(platform_record(TREASURY), TREASURY, vec![0u8; 163]);
    assert_eq!(
        Processor::process_initialize_user(&accounts, 1_000_000, 0),
        Err(DecenseError::MathError)
    );
    assert_eq!(
        Processor::process_initialize_user(&accounts, u64::MAX, 1),
        Err(DecenseError::MathError)
    );
    assert_eq!(
        Processor::process_initialize_user(&accounts, 1, u64::MAX),
        Err(DecenseError::MathError)
    );
}

#[test]
fn a_launch_wants_a_seller_record_of_the_right_width() {
    let accounts = user_accounts(platform_record(TREASURY), TREASURY, vec![]);
    assert_eq!(
        Processor::process_initialize_user(&accounts, 1_000_000, 1000),
        Err(DecenseError::InvalidAccountData)
    );
    assert_eq!(
        Processor::launch_record(
            &[0u8; 139],
            &address(1),
            &address(2),
            &address(3),
            &address(4),
            1_000_000,
            1000
        ),
        Err(DecenseError::InvalidAccountData)
    );
}

#[test]
fn preparing_an_exchange_refuses_a_wrong_custody_address() {
    let accounts = exchange_accounts(vec![], vec![], vec![], address(66), vec![]);
    assert_eq!(
        Processor::prepare_exchange(&address(PROGRAM), &accounts),
        Err(DecenseError::InvalidPDA)
    );
    assert_eq!(
        Processor::process_exchange(&address(PROGRAM), &accounts, 1, 1),
        Err(DecenseError::InvalidPDA)
    );
    assert_eq!(
        Processor::unpack_and_prepare_instruction(&address(PROGRAM), &accounts, &exchange_data(1, 1)),
        Err(DecenseError::InvalidPDA)
    );
}

#[test]
fn preparing_an_exchange_opens_what_a_new_buyer_lacks() {
    let custody = custody_of_seller().0;
    let accounts = exchange_accounts(vec![], vec![], vec![], custody, vec![]);
    assert_eq!(
        Processor::prepare_exchange(&address(PROGRAM), &accounts),
        Ok(Effects {
            invocations: vec![
                unsigned(SubOperation::CreateRecord {
                    payer: address(BUYER),
                    record: address(BUYER_RECORD),
                    seed: RecordSeed::Buyer,
                    lamports: 1_176_240,
                    space: 41,
                    owner: address(PROGRAM),
                }),
                unsigned(SubOperation::CreateAssociatedAccount {
                    payer: address(BUYER),
                    wallet: address(BUYER),
                    mint: address(MINT),
                }),
            ],
            writes: vec![RecordWrite { account: 1, data: buyer_state(0).to_bytes() }],
        })
    );
}

#[test]
fn preparing_an_exchange_creates_only_what_is_missing() {
    let custody = custody_of_seller().0;
    let known = exchange_accounts(
        buyer_state(5).to_bytes(),
        token_account(5),
        vec![],
        custody,
        vec![],
    );
    assert_eq!(
        Processor::prepare_exchange(&address(PROGRAM), &known),
        Ok(Effects { invocations: vec![], writes: vec![] })
    );
    let no_token_account =
        exchange_accounts(buyer_state(5).to_bytes(), vec![], vec![], custody, vec![]);
    assert_eq!(
        Processor::prepare_exchange(&address(PROGRAM), &no_token_account),
        Ok(Effects {
            invocations: vec![unsigned(SubOperation::CreateAssociatedAccount {
                payer: address(BUYER),
                wallet: address(BUYER),
                mint: address(MINT),
            })],
            writes: vec![],
        })
    );
    let no_record = exchange_accounts(vec![], token_account(5), vec![], custody, vec![]);
    let effects = Processor::prepare_exchange(&address(PROGRAM), &no_record).unwrap();
    assert_eq!(effects.invocations.len(), 1);
    assert_eq!(effects.writes, vec![RecordWrite { account: 1, data: buyer_state(0).to_bytes() }]);
}

#[test]
fn an_exchange_moves_value_and_reprices() {
    let (custody, bump) = custody_of_seller();
    let accounts = exchange_accounts(
        buyer_state(0).to_bytes(),
        token_account(0),
        seller_state(1_000_000_000_000, 0).to_bytes(),
        custody,
        token_account(5_000_000),
    );
    let effects =
        Processor::process_exchange(&address(PROGRAM), &accounts, 2_000_000_000_000, 1000).unwrap();
    assert_eq!(
        effects.invocations,
        vec![
            unsigned(SubOperation::TransferNative {
                from: address(BUYER),
                to: address(SELLER),
                lamports: 2_000_000_000_000,
            }),
            Invocation {
                operation: SubOperation::TransferTokens {
                    source: address(VAULT_ATA),
                    mint: address(MINT),
                    destination: address(BUYER_ATA),
                    authority: custody,
                    amount: 1000,
                    decimals: 4,
                },
                signer: Some(CustodySeeds { seller: address(SELLER), bump }),
            },
        ]
    );
    assert_eq!(
        effects.writes,
        vec![
            RecordWrite { account: 5, data: seller_state(1_000_200_000_000, 1).to_bytes() },
            RecordWrite { account: 1, data: buyer_state(1000).to_bytes() },
        ]
    );
}

#[test]
fn an_exchange_through_the_dispatcher_is_the_same_exchange() {
    let (custody, _) = custody_of_seller();
    let accounts = exchange_accounts(
        buyer_state(0).to_bytes(),
        token_account(0),
        seller_state(1_000_000_000_000, 0).to_bytes(),
        custody,
        token_account(5_000_000),
    );
    assert_eq!(
        Processor::unpack_and_process_instruction(
            &address(PROGRAM),
            &accounts,
            &exchange_data(2_000_000_000_000, 1000)
        ),
        Processor::process_exchange(&address(PROGRAM), &accounts, 2_000_000_000_000, 1000)
    );
}

#[test]
fn an_exchange_overwrites_the_holding_and_counts_only_new_holders() {
    let (custody, _) = custody_of_seller();
    let accounts = exchange_accounts(
        buyer_state(700).to_bytes(),
        token_account(700),
        seller_state(1_000_000_000_000, 4).to_bytes(),
        custody,
        token_account(5_000_000),
    );
    let effects =
        Processor::process_exchange(&address(PROGRAM), &accounts, 1_000_000_000_000, 50).unwrap();
    assert_eq!(
        effects.writes,
        vec![
            RecordWrite { account: 5, data: seller_state(1_000_000_000_000, 4).to_bytes() },
            RecordWrite { account: 1, data: buyer_state(50).to_bytes() },
        ]
    );
}

#[test]
fn an_exchange_for_more_than_the_vault_holds_changes_nothing() {
    let (custody, _) = custody_of_seller();
    let accounts = exchange_accounts(
        buyer_state(0).to_bytes(),
        token_account(0),
        seller_state(1_000_000_000_000, 0).to_bytes(),
        custody,
        token_account(5_000_000),
    );
    assert_eq!(
        Processor::process_exchange(&address(PROGRAM), &accounts, 2_000_000_000_000, 5_000_001),
        Err(DecenseError::InsufficientTokenBalance)
    );
    assert!(
        Processor::process_exchange(&address(PROGRAM), &accounts, 2_000_000_000_000, 5_000_000)
            .is_ok()
    );
}

#[test]
fn an_exchange_reports_the_first_thing_that_is_wrong() {
    let found = Some((address(70), 250u8));
    let good_seller = seller_state(100, 0).to_bytes();
    let good_buyer = buyer_state(0).to_bytes();
    let run = |seller: Vec<u8>,
               buyer: Vec<u8>,
               vault: Result<u64, DecenseError>,
               held: Result<u64, DecenseError>,
               asked: u64,
               quantity: u64| {
        let accounts = exchange_accounts(buyer, vec![], seller, address(70), vec![]);
        Processor::process_exchange_with(found, vault, held, &accounts, asked, quantity)
    };
    assert_eq!(
        run(vec![0u8; 163], vec![], Err(DecenseError::InvalidAccountData), Ok(0), 1, 9),
        Err(DecenseError::UninitializedAccount)
    );
    assert_eq!(
        run(good_seller.to_vec(), vec![0u8; 40], Err(DecenseError::UninitializedAccount), Ok(0), 1, 9),
        Err(DecenseError::InvalidAccountData)
    );
    assert_eq!(
        run(good_seller.to_vec(), vec![0u8; 41], Ok(1), Ok(0), 1, 9),
        Err(DecenseError::UninitializedAccount)
    );
    assert_eq!(
        run(good_seller.to_vec(), good_buyer.to_vec(), Err(DecenseError::UninitializedAccount), Ok(0), 1, 9),
        Err(DecenseError::UninitializedAccount)
    );
    assert_eq!(
        run(good_seller.to_vec(), good_buyer.to_vec(), Ok(8), Err(DecenseError::InvalidAccountData), 1, 9),
        Err(DecenseError::InsufficientTokenBalance)
    );
    assert_eq!(
        run(good_seller.to_vec(), good_buyer.to_vec(), Ok(0), Err(DecenseError::InvalidAccountData), 1, 0),
        Err(DecenseError::MathError)
    );
    assert_eq!(
        run(good_seller.to_vec(), good_buyer.to_vec(), Ok(9), Err(DecenseError::InvalidAccountData), 1, 9),
        Err(DecenseError::InvalidAccountData)
    );
    assert_eq!(
        run(
            seller_state(100, u64::MAX).to_bytes(),
            good_buyer.to_vec(),
            Ok(9),
            Ok(0),
            1,
            9
        ),
        Err(DecenseError::MathError)
    );
    assert!(run(good_seller.to_vec(), good_buyer.to_vec(), Ok(9), Ok(0), 1, 9).is_ok());
}

#[test]
fn trade_records_carry_the_new_price_count_and_holding() {
    let seller = seller_state(1_000_000_000_000, 7).to_bytes();
    let buyer = buyer_state(3).to_bytes();
    assert_eq!(
        Processor::trade_records(&seller, &buyer, Ok(5_000_000), Ok(0), 2_000_000_000_000, 1000),
        Ok((seller_state(1_000_200_000_000, 8).to_bytes(), buyer_state(1000).to_bytes()))
    );
    assert_eq!(
        Processor::trade_records(&seller, &buyer, Ok(5_000_000), Ok(1), 500_000_000_000, 10),
        Ok((seller_state(999_999_000_000, 7).to_bytes(), buyer_state(10).to_bytes()))
    );
}

#[test]
fn preparing_a_deposit_moves_the_tokens_first() {
    let (custody, _) = custody_of_seller();
    let accounts = transfer_accounts(seller_state(1, 1).to_bytes(), token_account(5), custody);
    assert_eq!(
        Processor::prepare_send_receive_tokens(&address(PROGRAM), &accounts, 0, 5),
        Ok(Effects {
            invocations: vec![unsigned(SubOperation::TransferTokens {
                source: address(BUYER_ATA),
                mint: address(MINT),
                destination: address(VAULT_ATA),
                authority: address(BUYER),
                amount: 5,
                decimals: 4,
            })],
            writes: vec![],
        })
    );
    assert_eq!(
        Processor::unpack_and_prepare_instruction(&address(PROGRAM), &accounts, &transfer_data(0, 5)),
        Processor::prepare_send_receive_tokens(&address(PROGRAM), &accounts, 0, 5)
    );
}

#[test]
fn preparing_a_withdrawal_asks_for_nothing() {
    let (custody, _) = custody_of_seller();
    let accounts = transfer_accounts(seller_state(1, 1).to_bytes(), token_account(5), custody);
    assert_eq!(
        Processor::prepare_send_receive_tokens(&address(PROGRAM), &accounts, 1, 5),
        Ok(Effects { invocations: vec![], writes: vec![] })
    );
}

#[test]
fn a_deposit_that_empties_the_trader_counts_the_trader_out() {
    let (custody, _) = custody_of_seller();
    let accounts = transfer_accounts(seller_state(9, 3).to_bytes(), token_account(0), custody);
    assert_eq!(
        Processor::process_send_receive_tokens(&address(PROGRAM), &accounts, 0, 5),
        Ok(Effects {
            invocations: vec![],
            writes: vec![RecordWrite { account: 1, data: seller_state(9, 2).to_bytes() }],
        })
    );
}

#[test]
fn a_deposit_that_leaves_tokens_changes_no_record() {
    let (custody, _) = custody_of_seller();
    let accounts = transfer_accounts(vec![], token_account(1), custody);
    assert_eq!(
        Processor::process_send_receive_tokens(&address(PROGRAM), &accounts, 0, 5),
        Ok(Effects { invocations: vec![], writes: vec![] })
    );
}

#[test]
fn a_withdrawal_by_a_new_holder_counts_the_trader_in() {
    let (custody, bump) = custody_of_seller();
    let accounts = transfer_accounts(seller_state(9, 3).to_bytes(), token_account(0), custody);
    assert_eq!(
        Processor::process_send_receive_tokens(&address(PROGRAM), &accounts, 1, 5),
        Ok(Effects {
            invocations: vec![Invocation {
                operation: SubOperation::TransferTokens {
                    source: address(VAULT_ATA),
                    mint: address(MINT),
                    destination: address(BUYER_ATA),
                    authority: custody,
                    amount: 5,
                    decimals: 4,
                },
                signer: Some(CustodySeeds { seller: address(SELLER), bump }),
            }],
            writes: vec![RecordWrite { account: 1, data: seller_state(9, 4).to_bytes() }],
        })
    );
}

#[test]
fn a_withdrawal_by_a_holder_changes_no_record() {
    let (custody, bump) = custody_of_seller();
    let accounts = transfer_accounts(vec![], token_account(2), custody);
    let effects =
        Processor::process_send_receive_tokens(&address(PROGRAM), &accounts, 1, 5).unwrap();
    assert_eq!(effects.writes, vec![]);
    assert_eq!(effects.invocations.len(), 1);
    assert_eq!(
        effects.invocations[0].signer,
        Some(CustodySeeds { seller: address(SELLER), bump })
    );
}

#[test]
fn an_unknown_action_is_an_invalid_instruction() {
    let (custody, _) = custody_of_seller();
    let accounts = transfer_accounts(seller_state(9, 3).to_bytes(), token_account(0), custody);
    assert_eq!(
        Processor::prepare_send_receive_tokens(&address(PROGRAM), &accounts, 2, 5),
        Err(DecenseError::InvalidInstruction)
    );
    assert_eq!(
        Processor::process_send_receive_tokens(&address(PROGRAM), &accounts, 2, 5),
        Err(DecenseError::InvalidInstruction)
    );
    assert_eq!(
        Processor::unpack_and_prepare_instruction(&address(PROGRAM), &accounts, &transfer_data(2, 5)),
        Err(DecenseError::InvalidInstruction)
    );
    assert_eq!(
        Processor::unpack_and_process_instruction(&address(PROGRAM), &accounts, &transfer_data(2, 5)),
        Err(DecenseError::InvalidInstruction)
    );
    assert_eq!(
        Processor::recount_record(&seller_state(9, 3).to_bytes(), Ok(0), u64::MAX),
        Err(DecenseError::InvalidInstruction)
    );
}

#[test]
fn a_transfer_refuses_a_wrong_custody_address() {
    let accounts = transfer_accounts(seller_state(9, 3).to_bytes(), token_account(0), address(66));
    assert_eq!(
        Processor::prepare_send_receive_tokens(&address(PROGRAM), &accounts, 0, 5),
        Err(DecenseError::InvalidPDA)
    );
    assert_eq!(
        Processor::process_send_receive_tokens(&address(PROGRAM), &accounts, 1, 5),
        Err(DecenseError::InvalidPDA)
    );
    assert_eq!(
        Processor::process_send_receive_tokens(&address(PROGRAM), &accounts, 2, 5),
        Err(DecenseError::InvalidPDA)
    );
}

#[test]
fn a_transfer_reports_what_is_wrong_with_its_accounts() {
    let record = seller_state(9, 0).to_bytes();
    assert_eq!(
        Processor::recount_record(&record, Err(DecenseError::UninitializedAccount), 0),
        Err(DecenseError::UninitializedAccount)
    );
    assert_eq!(Processor::recount_record(&record, Ok(0), 0), Err(DecenseError::MathError));
    assert_eq!(
        Processor::recount_record(&seller_state(9, u64::MAX).to_bytes(), Ok(0), 1),
        Err(DecenseError::MathError)
    );
    assert_eq!(
        Processor::recount_record(&[0u8; 163], Ok(0), 1),
        Err(DecenseError::UninitializedAccount)
    );
    assert_eq!(Processor::recount_record(&[], Ok(0), 0), Err(DecenseError::InvalidAccountData));
    assert_eq!(Processor::recount_record(&[], Ok(3), 0), Ok(None));
    assert_eq!(
        Processor::recount_record(&record, Ok(0), 1),
        Ok(Some(seller_state(9, 1).to_bytes()))
    );
}

#[test]
fn the_dispatcher_runs_the_operation_that_the_opcode_names() {
    let program = address(PROGRAM);
    let accounts = platform_accounts(vec![]);
    assert_eq!(
        Processor::unpack_and_prepare_instruction(&program, &accounts, &[0]),
        Processor::prepare_initialize_platform(&program, &accounts)
    );
    let accounts = platform_accounts(vec![0u8; 33]);
    assert_eq!(
        Processor::unpack_and_process_instruction(&program, &accounts, &[0]),
        Processor::process_initialize_platform(&accounts)
    );
    let mut launch = vec![1u8];
    launch.extend_from_slice(&1_000_000u64.to_le_bytes());
    launch.extend_from_slice(&1000u64.to_le_bytes());
    let accounts = user_accounts(platform_record(TREASURY), TREASURY, vec![0u8; 163]);
    assert_eq!(
        Processor::unpack_and_prepare_instruction(&program, &accounts, &launch),
        Processor::prepare_initialize_user(&program, &accounts)
    );
    assert_eq!(
        Processor::unpack_and_process_instruction(&program, &accounts, &launch),
        Processor::process_initialize_user(&accounts, 1_000_000, 1000)
    );
    assert_eq!(
        Processor::unpack_and_process_instruction(&program, &accounts, &[]),
        Err(DecenseError::InvalidInstruction)
    );
    assert_eq!(
        Processor::unpack_and_prepare_instruction(&program, &accounts, &[9]),
        Err(DecenseError::InvalidInstruction)
    );
    assert_eq!(
        Processor::unpack_and_process_instruction(&program, &accounts, &[2, 1, 2]),
        Err(DecenseError::InvalidNumber)
    );
}

#[test]
fn the_holder_count_follows_the_traders_who_hold_tokens() {
    // Two traders buy, one of them twice; one sells everything back, the
    // other a part. The count is kept by the exchange, the balances by this
    // test, as the token program would keep them.
    let mut record = seller_state(1_000_000_000_000, 0).to_bytes();
    let mut balances = [0u64; 2];
    let mut vault = 5_000_000u64;
    let steps: [(usize, bool, u64); 6] = [
        (0, true, 100),
        (1, true, 50),
        (0, true, 25),
        (0, false, 125),
        (1, false, 20),
        (1, false, 30),
    ];
    for (trader, buys, amount) in steps {
        if buys {
            let (seller, _) = Processor::trade_records(
                &record,
                &buyer_state(0).to_bytes(),
                Ok(vault),
                Ok(balances[trader]),
                1_000_000_000_000,
                amount,
            )
            .unwrap();
            record = seller;
            balances[trader] += amount;
            vault -= amount;
        } else {
            balances[trader] -= amount;
            vault += amount;
            if let Some(seller) =
                Processor::recount_record(&record, Ok(balances[trader]), DEPOSIT).unwrap()
            {
                record = seller;
            }
        }
        let holders = UserState::unpack(&record).unwrap().holders;
        let holding = balances.iter().filter(|balance| **balance > 0).count() as u64;
        assert_eq!(holders, holding);
    }
    assert_eq!(UserState::unpack(&record).unwrap().holders, 0);
}

#[test]
fn an_exchange_of_nothing_still_counts_a_buyer_who_holds_nothing() {
    let seller = seller_state(1_000_000_000_000, 2).to_bytes();
    let buyer = buyer_state(0).to_bytes();
    assert_eq!(
        Processor::trade_records(&seller, &buyer, Ok(10), Ok(0), 1_000_000_000_000, 0),
        Ok((seller_state(1_000_000_000_000, 3).to_bytes(), buyer_state(0).to_bytes()))
    );
}

#[test]
fn token_accounts_that_cannot_be_read_stop_an_exchange() {
    let (custody, _) = custody_of_seller();
    let no_vault = exchange_accounts(
        buyer_state(0).to_bytes(),
        token_account(0),
        seller_state(1_000_000_000_000, 0).to_bytes(),
        custody,
        vec![],
    );
    assert_eq!(
        Processor::process_exchange(&address(PROGRAM), &no_vault, 1, 0),
        Err(DecenseError::InvalidAccountData)
    );
    let unused_vault = exchange_accounts(
        buyer_state(0).to_bytes(),
        token_account(0),
        seller_state(1_000_000_000_000, 0).to_bytes(),
        custody,
        vec![0u8; 165],
    );
    assert_eq!(
        Processor::process_exchange(&address(PROGRAM), &unused_vault, 1, 0),
        Err(DecenseError::UninitializedAccount)
    );
    let no_buyer_tokens = exchange_accounts(
        buyer_state(0).to_bytes(),
        vec![],
        seller_state(1_000_000_000_000, 0).to_bytes(),
        custody,
        token_account(5),
    );
    assert_eq!(
        Processor::process_exchange(&address(PROGRAM), &no_buyer_tokens, 1_000_000_000_000, 1),
        Err(DecenseError::InvalidAccountData)
    );
}
