//! Tests of the instruction processor.

use solana_program::program_pack::Pack;

use paladin_lockup::error::PaladinLockupError;
use paladin_lockup::error::ProgramError;
use paladin_lockup::instruction::PaladinLockupInstruction;
use paladin_lockup::processor::process;
use paladin_lockup::processor::process_lockup;
use paladin_lockup::processor::process_unlock;
use paladin_lockup::processor::process_withdraw;
use paladin_lockup::processor::system_program_id;
use paladin_lockup::processor::AccountState;
use paladin_lockup::processor::InstructionEffects;
use paladin_lockup::processor::TransferAuthority;
use paladin_lockup::state::get_escrow_authority_address;
use paladin_lockup::state::get_escrow_authority_address_and_bump_seed;
use paladin_lockup::state::lockup_from_bytes;
use paladin_lockup::state::lockup_to_bytes;
use paladin_lockup::state::Lockup;
use paladin_lockup::state::Pubkey;
use paladin_lockup::state::LOCKUP_LEN;
use paladin_lockup::LOCKUP_COOLDOWN_SECONDS;

fn key(tag: u8) -> Pubkey {
    let mut bytes = [0u8; 32];
    bytes[0] = tag;
    bytes[31] = tag;
    Pubkey { bytes }
}

fn token_program_key() -> Pubkey {
    Pubkey { bytes: spl_token_2022::id().to_bytes() }
}

/// The associated token account address, derived by the SPL crate itself, so
/// that these tests hold the library to the real derivation.
fn ata(wallet: &Pubkey, mint: &Pubkey, token_program: &Pubkey) -> Pubkey {
    let derived = spl_associated_token_account::get_associated_token_address_with_program_id(
        &solana_program::pubkey::Pubkey::new_from_array(wallet.bytes),
        &solana_program::pubkey::Pubkey::new_from_array(mint.bytes),
        &solana_program::pubkey::Pubkey::new_from_array(token_program.bytes),
    );
    Pubkey { bytes: derived.to_bytes() }
}

fn plain_account(address: Pubkey, is_signer: bool) -> AccountState {
    AccountState {
        address,
        owner: Pubkey { bytes: [0u8; 32] },
        lamports: 0,
        data: Vec::new(),
        is_signer,
    }
}

/// A mint account whose payload the token ledger's own packer produced.
fn mint_account(address: Pubkey, decimals: u8) -> AccountState {
    let mint = spl_token_2022::state::Mint {
        mint_authority: solana_program::program_option::COption::None,
        supply: 0,
        decimals,
        is_initialized: true,
        freeze_authority: solana_program::program_option::COption::None,
    };
    let mut data = vec![0u8; spl_token_2022::state::Mint::LEN];
    spl_token_2022::state::Mint::pack(mint, &mut data).unwrap();
    AccountState { address, owner: token_program_key(), lamports: 0, data, is_signer: false }
}

fn uninitialized_lockup_account(program_id: &Pubkey) -> AccountState {
    AccountState {
        address: key(40),
        owner: *program_id,
        lamports: 1_000_000,
        data: vec![0u8; LOCKUP_LEN],
        is_signer: false,
    }
}

fn sample_record(authority: Pubkey, mint: Pubkey, end: Option<u64>) -> Lockup {
    Lockup {
        amount: 10_000,
        authority,
        lockup_start_timestamp: 1_000,
        lockup_end_timestamp: end,
        mint,
    }
}

fn initialized_lockup_account(program_id: &Pubkey, record: &Lockup) -> AccountState {
    AccountState {
        address: key(40),
        owner: *program_id,
        lamports: 1_000_000,
        data: lockup_to_bytes(record),
        is_signer: false,
    }
}

/// The eight accounts a `Lockup` declares.
fn lockup_account_list(
    program_id: &Pubkey,
    authority: Pubkey,
    token_owner: Pubkey,
    mint: Pubkey,
    lockup: AccountState,
) -> Vec<AccountState> {
    let token_program = token_program_key();
    let escrow_authority = get_escrow_authority_address(program_id).unwrap();
    let depositor = ata(&token_owner, &mint, &token_program);
    let escrow_token = ata(&escrow_authority, &mint, &token_program);
    vec![
        plain_account(authority, false),
        plain_account(token_owner, true),
        plain_account(depositor, false),
        lockup,
        plain_account(escrow_authority, false),
        plain_account(escrow_token, false),
        mint_account(mint, 9),
        plain_account(token_program, false),
    ]
}

/// The eight accounts a `Withdraw` declares.
fn withdraw_account_list(
    program_id: &Pubkey,
    authority: Pubkey,
    lamport_destination: AccountState,
    token_destination: Pubkey,
    lockup: AccountState,
    mint: Pubkey,
) -> Vec<AccountState> {
    let token_program = token_program_key();
    let escrow_authority = get_escrow_authority_address(program_id).unwrap();
    let escrow_token = ata(&escrow_authority, &mint, &token_program);
    vec![
        plain_account(authority, true),
        lamport_destination,
        plain_account(token_destination, false),
        lockup,
        plain_account(escrow_authority, false),
        plain_account(escrow_token, false),
        mint_account(mint, 9),
        plain_account(token_program, false),
    ]
}

fn custom(e: PaladinLockupError) -> ProgramError {
    ProgramError::Custom(e.code())
}

#[test]
fn lockup_success() {
    let program_id = key(100);
    let alice = key(1);
    let mint = key(50);
    let accounts =
        lockup_account_list(&program_id, alice, alice, mint, uninitialized_lockup_account(&program_id));
    let effects = process_lockup(&program_id, &accounts, 10_000, 1_000).unwrap();

    let record = lockup_from_bytes(&effects.lockup_account.data);
    assert_eq!(record.amount, 10_000);
    assert_eq!(record.authority, alice);
    assert_eq!(record.lockup_start_timestamp, 1_000);
    assert_eq!(record.lockup_end_timestamp, None);
    assert_eq!(record.mint, mint);
    assert_eq!(effects.lockup_account.address, key(40));
    assert_eq!(effects.lockup_account.owner, program_id);
    assert_eq!(effects.lockup_account.lamports, 1_000_000);

    let token_program = token_program_key();
    let escrow_authority = get_escrow_authority_address(&program_id).unwrap();
    assert_eq!(
        effects.transfer.source,
        ata(&alice, &mint, &token_program)
    );
    assert_eq!(
        effects.transfer.destination,
        ata(&escrow_authority, &mint, &token_program)
    );
    assert_eq!(effects.transfer.mint, mint);
    assert_eq!(effects.transfer.amount, 10_000);
    assert_eq!(effects.transfer.decimals, 9);
    assert!(matches!(effects.transfer.authority, TransferAuthority::Owner(k) if k == alice));
}

#[test]
fn lockup_fail_not_enough_accounts() {
    let program_id = key(100);
    let mut accounts = lockup_account_list(
        &program_id,
        key(1),
        key(1),
        key(50),
        uninitialized_lockup_account(&program_id),
    );
    accounts.pop();
    let result = process_lockup(&program_id, &accounts, 10_000, 1_000);
    assert_eq!(result.unwrap_err(), ProgramError::NotEnoughAccountKeys);
}

#[test]
fn lockup_fail_token_owner_not_signer() {
    let program_id = key(100);
    let mut accounts = lockup_account_list(
        &program_id,
        key(1),
        key(1),
        key(50),
        uninitialized_lockup_account(&program_id),
    );
    accounts[1].is_signer = false;
    let result = process_lockup(&program_id, &accounts, 10_000, 1_000);
    assert_eq!(result.unwrap_err(), ProgramError::MissingRequiredSignature);
}

#[test]
fn lockup_fail_incorrect_depositor_token_account() {
    let program_id = key(100);
    let mut accounts = lockup_account_list(
        &program_id,
        key(1),
        key(1),
        key(50),
        uninitialized_lockup_account(&program_id),
    );
    accounts[2].address = key(99);
    let result = process_lockup(&program_id, &accounts, 10_000, 1_000);
    assert_eq!(result.unwrap_err(), ProgramError::InvalidSeeds);
}

#[test]
fn lockup_fail_incorrect_lockup_owner() {
    let program_id = key(100);
    let mut lockup = uninitialized_lockup_account(&program_id);
    lockup.owner = key(101);
    let accounts = lockup_account_list(&program_id, key(1), key(1), key(50), lockup);
    let result = process_lockup(&program_id, &accounts, 10_000, 1_000);
    assert_eq!(result.unwrap_err(), ProgramError::InvalidAccountOwner);
}

#[test]
fn lockup_fail_lockup_not_enough_space() {
    let program_id = key(100);
    let mut lockup = uninitialized_lockup_account(&program_id);
    lockup.data = vec![0u8; 12];
    let accounts = lockup_account_list(&program_id, key(1), key(1), key(50), lockup);
    let result = process_lockup(&program_id, &accounts, 10_000, 1_000);
    assert_eq!(result.unwrap_err(), ProgramError::InvalidAccountData);
}

#[test]
fn lockup_fail_lockup_already_initialized() {
    let program_id = key(100);
    let alice = key(1);
    let mint = key(50);
    let accounts =
        lockup_account_list(&program_id, alice, alice, mint, uninitialized_lockup_account(&program_id));
    let effects = process_lockup(&program_id, &accounts, 10_000, 1_000).unwrap();

    let mut accounts_after = accounts;
    accounts_after[3] = effects.lockup_account;
    let result = process_lockup(&program_id, &accounts_after, 20_000, 2_000);
    assert_eq!(result.unwrap_err(), ProgramError::AccountAlreadyInitialized);
}

#[test]
fn lockup_fail_incorrect_escrow_authority_address() {
    let program_id = key(100);
    let mut accounts = lockup_account_list(
        &program_id,
        key(1),
        key(1),
        key(50),
        uninitialized_lockup_account(&program_id),
    );
    accounts[4].address = key(99);
    let result = process_lockup(&program_id, &accounts, 10_000, 1_000);
    assert_eq!(
        result.unwrap_err(),
        custom(PaladinLockupError::IncorrectEscrowAuthorityAddress)
    );
}

#[test]
fn lockup_fail_incorrect_escrow_token_account_address() {
    let program_id = key(100);
    let mut accounts = lockup_account_list(
        &program_id,
        key(1),
        key(1),
        key(50),
        uninitialized_lockup_account(&program_id),
    );
    accounts[5].address = key(99);
    let result = process_lockup(&program_id, &accounts, 10_000, 1_000);
    assert_eq!(
        result.unwrap_err(),
        custom(PaladinLockupError::IncorrectEscrowTokenAccount)
    );
}

#[test]
fn lockup_fail_unreadable_mint() {
    let program_id = key(100);
    let mut accounts = lockup_account_list(
        &program_id,
        key(1),
        key(1),
        key(50),
        uninitialized_lockup_account(&program_id),
    );
    accounts[6].data = vec![7u8; 5];
    let result = process_lockup(&program_id, &accounts, 10_000, 1_000);
    assert_eq!(result.unwrap_err(), ProgramError::InvalidAccountData);
}

#[test]
fn unlock_success() {
    let program_id = key(100);
    let alice = key(1);
    let record = sample_record(alice, key(50), None);
    let accounts = vec![
        plain_account(alice, true),
        initialized_lockup_account(&program_id, &record),
    ];
    let effects = process_unlock(&program_id, &accounts, 2_000).unwrap();
    let updated = lockup_from_bytes(&effects.lockup_account.data);
    assert_eq!(updated.lockup_end_timestamp, Some(2_000 + LOCKUP_COOLDOWN_SECONDS));
    assert_eq!(updated.amount, record.amount);
    assert_eq!(updated.authority, record.authority);
    assert_eq!(updated.lockup_start_timestamp, record.lockup_start_timestamp);
    assert_eq!(updated.mint, record.mint);
    assert_eq!(effects.lockup_account.owner, program_id);
    assert_eq!(effects.lockup_account.lamports, 1_000_000);
}

#[test]
fn fail_lockup_authority_not_signer() {
    let program_id = key(100);
    let alice = key(1);
    let record = sample_record(alice, key(50), None);
    let accounts = vec![
        plain_account(alice, false),
        initialized_lockup_account(&program_id, &record),
    ];
    let result = process_unlock(&program_id, &accounts, 2_000);
    assert_eq!(result.unwrap_err(), ProgramError::MissingRequiredSignature);
}

#[test]
fn unlock_fail_incorrect_lockup_owner() {
    let program_id = key(100);
    let alice = key(1);
    let record = sample_record(alice, key(50), None);
    let mut lockup = initialized_lockup_account(&program_id, &record);
    lockup.owner = key(101);
    let accounts = vec![plain_account(alice, true), lockup];
    let result = process_unlock(&program_id, &accounts, 2_000);
    assert_eq!(result.unwrap_err(), ProgramError::InvalidAccountOwner);
}

#[test]
fn unlock_fail_lockup_not_enough_space() {
    let program_id = key(100);
    let alice = key(1);
    let record = sample_record(alice, key(50), None);
    let mut lockup = initialized_lockup_account(&program_id, &record);
    lockup.data.truncate(12);
    let accounts = vec![plain_account(alice, true), lockup];
    let result = process_unlock(&program_id, &accounts, 2_000);
    assert_eq!(result.unwrap_err(), ProgramError::UninitializedAccount);
}

#[test]
fn fail_lockup_uninitialized() {
    let program_id = key(100);
    let alice = key(1);
    let accounts = vec![
        plain_account(alice, true),
        uninitialized_lockup_account(&program_id),
    ];
    let result = process_unlock(&program_id, &accounts, 2_000);
    assert_eq!(result.unwrap_err(), ProgramError::UninitializedAccount);
}

#[test]
fn fail_incorrect_lockup_authority() {
    let program_id = key(100);
    let alice = key(1);
    let mallory = key(2);
    let record = sample_record(alice, key(50), None);
    let accounts = vec![
        plain_account(mallory, true),
        initialized_lockup_account(&program_id, &record),
    ];
    let result = process_unlock(&program_id, &accounts, 2_000);
    assert_eq!(result.unwrap_err(), ProgramError::IncorrectAuthority);
}

#[test]
fn fail_lockup_already_unlocked() {
    let program_id = key(100);
    let alice = key(1);
    let record = sample_record(alice, key(50), Some(100_000));
    let accounts = vec![
        plain_account(alice, true),
        initialized_lockup_account(&program_id, &record),
    ];
    let result = process_unlock(&program_id, &accounts, 10_000);
    assert_eq!(result.unwrap_err(), custom(PaladinLockupError::LockupAlreadyUnlocked));
}

#[test]
fn unlock_fail_deadline_overflow() {
    let program_id = key(100);
    let alice = key(1);
    let record = sample_record(alice, key(50), None);
    let accounts = vec![
        plain_account(alice, true),
        initialized_lockup_account(&program_id, &record),
    ];
    let result = process_unlock(&program_id, &accounts, u64::MAX);
    assert_eq!(result.unwrap_err(), ProgramError::ArithmeticOverflow);
}

#[test]
fn withdraw_success() {
    let program_id = key(100);
    let alice = key(1);
    let mint = key(50);
    let record = sample_record(alice, mint, Some(5_000));
    let lamport_destination = AccountState {
        address: key(60),
        owner: Pubkey { bytes: [0u8; 32] },
        lamports: 500,
        data: Vec::new(),
        is_signer: false,
    };
    let accounts = withdraw_account_list(
        &program_id,
        alice,
        lamport_destination,
        key(61),
        initialized_lockup_account(&program_id, &record),
        mint,
    );
    let effects = process_withdraw(&program_id, &accounts, 5_000).unwrap();

    let token_program = token_program_key();
    let (escrow_authority, bump) =
        get_escrow_authority_address_and_bump_seed(&program_id).unwrap();
    assert_eq!(
        effects.transfer.source,
        ata(&escrow_authority, &mint, &token_program)
    );
    assert_eq!(effects.transfer.destination, key(61));
    assert_eq!(effects.transfer.mint, mint);
    assert_eq!(effects.transfer.amount, 10_000);
    assert_eq!(effects.transfer.decimals, 9);
    assert!(matches!(
        effects.transfer.authority,
        TransferAuthority::EscrowAuthority { address, bump_seed }
            if address == escrow_authority && bump_seed == bump
    ));

    assert_eq!(effects.lockup_account.address, key(40));
    assert_eq!(effects.lockup_account.owner, system_program_id());
    assert_eq!(effects.lockup_account.lamports, 0);
    assert!(effects.lockup_account.data.is_empty());

    assert_eq!(effects.lamport_destination.address, key(60));
    assert_eq!(effects.lamport_destination.lamports, 500 + 1_000_000);
}

#[test]
fn fail_lockup_still_active() {
    let program_id = key(100);
    let alice = key(1);
    let mint = key(50);
    let record = sample_record(alice, mint, Some(11_000));
    let accounts = withdraw_account_list(
        &program_id,
        alice,
        plain_account(key(60), false),
        key(61),
        initialized_lockup_account(&program_id, &record),
        mint,
    );
    let result = process_withdraw(&program_id, &accounts, 10_000);
    assert_eq!(result.unwrap_err(), custom(PaladinLockupError::LockupActive));
}

#[test]
fn withdraw_fail_never_unlocked() {
    let program_id = key(100);
    let alice = key(1);
    let mint = key(50);
    let record = sample_record(alice, mint, None);
    let accounts = withdraw_account_list(
        &program_id,
        alice,
        plain_account(key(60), false),
        key(61),
        initialized_lockup_account(&program_id, &record),
        mint,
    );
    let result = process_withdraw(&program_id, &accounts, u64::MAX);
    assert_eq!(result.unwrap_err(), custom(PaladinLockupError::LockupActive));
}

#[test]
fn withdraw_fail_incorrect_lockup_owner() {
    let program_id = key(100);
    let alice = key(1);
    let mint = key(50);
    let record = sample_record(alice, mint, Some(5_000));
    let mut lockup = initialized_lockup_account(&program_id, &record);
    lockup.owner = key(101);
    let accounts = withdraw_account_list(
        &program_id,
        alice,
        plain_account(key(60), false),
        key(61),
        lockup,
        mint,
    );
    let result = process_withdraw(&program_id, &accounts, 5_000);
    assert_eq!(result.unwrap_err(), ProgramError::InvalidAccountOwner);
}

#[test]
fn withdraw_fail_lockup_not_enough_space() {
    let program_id = key(100);
    let alice = key(1);
    let mint = key(50);
    let record = sample_record(alice, mint, Some(5_000));
    let mut lockup = initialized_lockup_account(&program_id, &record);
    lockup.data.truncate(12);
    let accounts = withdraw_account_list(
        &program_id,
        alice,
        plain_account(key(60), false),
        key(61),
        lockup,
        mint,
    );
    let result = process_withdraw(&program_id, &accounts, 5_000);
    assert_eq!(result.unwrap_err(), ProgramError::UninitializedAccount);
}

#[test]
fn withdraw_fail_lockup_uninitialized() {
    let program_id = key(100);
    let alice = key(1);
    let mint = key(50);
    let accounts = withdraw_account_list(
        &program_id,
        alice,
        plain_account(key(60), false),
        key(61),
        uninitialized_lockup_account(&program_id),
        mint,
    );
    let result = process_withdraw(&program_id, &accounts, 5_000);
    assert_eq!(result.unwrap_err(), ProgramError::UninitializedAccount);
}

#[test]
fn withdraw_fail_incorrect_escrow_authority_address() {
    let program_id = key(100);
    let alice = key(1);
    let mint = key(50);
    let record = sample_record(alice, mint, Some(5_000));
    let mut accounts = withdraw_account_list(
        &program_id,
        alice,
        plain_account(key(60), false),
        key(61),
        initialized_lockup_account(&program_id, &record),
        mint,
    );
    accounts[4].address = key(99);
    let result = process_withdraw(&program_id, &accounts, 5_000);
    assert_eq!(
        result.unwrap_err(),
        custom(PaladinLockupError::IncorrectEscrowAuthorityAddress)
    );
}

#[test]
fn withdraw_fail_incorrect_escrow_token_account_address() {
    let program_id = key(100);
    let alice = key(1);
    let mint = key(50);
    let record = sample_record(alice, mint, Some(5_000));
    let mut accounts = withdraw_account_list(
        &program_id,
        alice,
        plain_account(key(60), false),
        key(61),
        initialized_lockup_account(&program_id, &record),
        mint,
    );
    accounts[5].address = key(99);
    let result = process_withdraw(&program_id, &accounts, 5_000);
    assert_eq!(
        result.unwrap_err(),
        custom(PaladinLockupError::IncorrectEscrowTokenAccount)
    );
}

#[test]
fn withdraw_fail_not_signer() {
    let program_id = key(100);
    let alice = key(1);
    let mint = key(50);
    let record = sample_record(alice, mint, Some(5_000));
    let mut accounts = withdraw_account_list(
        &program_id,
        alice,
        plain_account(key(60), false),
        key(61),
        initialized_lockup_account(&program_id, &record),
        mint,
    );
    accounts[0].is_signer = false;
    let result = process_withdraw(&program_id, &accounts, 5_000);
    assert_eq!(result.unwrap_err(), ProgramError::MissingRequiredSignature);
}

#[test]
fn withdraw_fail_incorrect_authority() {
    let program_id = key(100);
    let alice = key(1);
    let mallory = key(2);
    let mint = key(50);
    let record = sample_record(alice, mint, Some(5_000));
    let accounts = withdraw_account_list(
        &program_id,
        mallory,
        plain_account(key(60), false),
        key(61),
        initialized_lockup_account(&program_id, &record),
        mint,
    );
    let result = process_withdraw(&program_id, &accounts, 5_000);
    assert_eq!(result.unwrap_err(), ProgramError::IncorrectAuthority);
}

#[test]
fn withdraw_fail_incorrect_mint() {
    let program_id = key(100);
    let alice = key(1);
    let record = sample_record(alice, key(50), Some(5_000));
    let accounts = withdraw_account_list(
        &program_id,
        alice,
        plain_account(key(60), false),
        key(61),
        initialized_lockup_account(&program_id, &record),
        key(51),
    );
    let result = process_withdraw(&program_id, &accounts, 5_000);
    assert_eq!(result.unwrap_err(), custom(PaladinLockupError::IncorrectMint));
}

#[test]
fn withdraw_fail_lamport_overflow() {
    let program_id = key(100);
    let alice = key(1);
    let mint = key(50);
    let record = sample_record(alice, mint, Some(5_000));
    let mut lamport_destination = plain_account(key(60), false);
    lamport_destination.lamports = u64::MAX;
    let accounts = withdraw_account_list(
        &program_id,
        alice,
        lamport_destination,
        key(61),
        initialized_lockup_account(&program_id, &record),
        mint,
    );
    let result = process_withdraw(&program_id, &accounts, 5_000);
    assert_eq!(result.unwrap_err(), ProgramError::ArithmeticOverflow);
}

#[test]
fn process_fail_invalid_instruction_data() {
    let program_id = key(100);
    let accounts: Vec<AccountState> = Vec::new();
    let result = process(&program_id, &accounts, &[9], 1_000);
    assert_eq!(result.unwrap_err(), ProgramError::InvalidInstructionData);
}

/// The full life of one lockup: deposit, premature withdrawals refused,
/// unlock, withdrawal after the cooldown, record gone, escrow balance back
/// where it started.
#[test]
fn test_e2e() {
    let program_id = key(100);
    let alice = key(1);
    let mint = key(50);
    let mut escrow_balance: u64 = 0;

    // Alice locks up 1000 tokens at time 10_000.
    let input = PaladinLockupInstruction::Lockup { amount: 1_000 }.pack();
    let accounts = lockup_account_list(
        &program_id,
        alice,
        alice,
        mint,
        uninitialized_lockup_account(&program_id),
    );
    let effects = process(&program_id, &accounts, &input, 10_000).unwrap();
    let lockup_account = match effects {
        InstructionEffects::Lockup(e) => {
            escrow_balance += e.transfer.amount;
            e.lockup_account
        }
        _ => panic!("expected lockup effects"),
    };
    assert_eq!(escrow_balance, 1_000);

    // An immediate withdrawal fails: the lockup is still active.
    let rebuild_lockup = |account: &AccountState| AccountState {
        address: account.address,
        owner: account.owner,
        lamports: account.lamports,
        data: account.data.clone(),
        is_signer: account.is_signer,
    };
    let input = PaladinLockupInstruction::Withdraw.pack();
    let accounts = withdraw_account_list(
        &program_id,
        alice,
        plain_account(key(60), false),
        key(61),
        rebuild_lockup(&lockup_account),
        mint,
    );
    let result = process(&program_id, &accounts, &input, 10_000);
    assert_eq!(result.unwrap_err(), custom(PaladinLockupError::LockupActive));

    // Alice unlocks; the cooldown deadline is set.
    let input = PaladinLockupInstruction::Unlock.pack();
    let accounts = vec![plain_account(alice, true), rebuild_lockup(&lockup_account)];
    let effects = process(&program_id, &accounts, &input, 10_000).unwrap();
    let lockup_account = match effects {
        InstructionEffects::Unlock(e) => e.lockup_account,
        _ => panic!("expected unlock effects"),
    };
    let deadline = 10_000 + LOCKUP_COOLDOWN_SECONDS;
    assert_eq!(
        lockup_from_bytes(&lockup_account.data).lockup_end_timestamp,
        Some(deadline)
    );

    // Withdrawing before the cooldown elapses still fails.
    let input = PaladinLockupInstruction::Withdraw.pack();
    let accounts = withdraw_account_list(
        &program_id,
        alice,
        plain_account(key(60), false),
        key(61),
        rebuild_lockup(&lockup_account),
        mint,
    );
    let result = process(&program_id, &accounts, &input, deadline - 1);
    assert_eq!(result.unwrap_err(), custom(PaladinLockupError::LockupActive));

    // Once the clock reaches the deadline the withdrawal succeeds.
    let accounts = withdraw_account_list(
        &program_id,
        alice,
        plain_account(key(60), false),
        key(61),
        rebuild_lockup(&lockup_account),
        mint,
    );
    let effects = process(&program_id, &accounts, &input, deadline).unwrap();
    let closed = match effects {
        InstructionEffects::Withdraw(e) => {
            assert_eq!(e.transfer.amount, 1_000);
            assert_eq!(e.transfer.destination, key(61));
            escrow_balance -= e.transfer.amount;
            e.lockup_account
        }
        _ => panic!("expected withdraw effects"),
    };

    // The escrow balance is back to its pre-lockup value and the record is
    // gone: empty, unfunded, and no longer owned by the program.
    assert_eq!(escrow_balance, 0);
    assert!(closed.data.is_empty());
    assert_eq!(closed.lamports, 0);
    assert_eq!(closed.owner, system_program_id());

    // A second withdrawal over the deleted account fails.
    let accounts = withdraw_account_list(
        &program_id,
        alice,
        plain_account(key(60), false),
        key(61),
        closed,
        mint,
    );
    let result = process(&program_id, &accounts, &input, deadline);
    assert_eq!(result.unwrap_err(), ProgramError::InvalidAccountOwner);
}
