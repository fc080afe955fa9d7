//! The instruction processor.
//!
//! A handler takes the program's identity, the positional account list the
//! transaction declared, and the ledger clock, checks every precondition in
//! a fixed order, and either fails without effect or returns the full effect
//! of the operation: the new states of the accounts it changes and the one
//! token transfer the host must perform.  The host applies the effect
//! atomically; a returned error leaves every account as it was.

use vstd::prelude::*;

use crate::error::PaladinLockupError;
use crate::error::ProgramError;
use crate::instruction::spec_unpack;
use crate::instruction::PaladinLockupInstruction;
use crate::state::associated_token_address_of;
use crate::state::escrow_authority_of;
use crate::state::get_associated_token_address;
use crate::state::get_escrow_authority_address_and_bump_seed;
use crate::state::lockup_from_bytes;
use crate::state::lockup_to_bytes;
use crate::state::pubkey_eq;
use crate::state::spec_lockup_bytes;
use crate::state::spec_parse_lockup;
use crate::state::Lockup;
use crate::state::LockupV;
use crate::state::Pubkey;
use crate::state::LOCKUP_DISCRIMINATOR;
use crate::state::LOCKUP_LEN;
use crate::LOCKUP_COOLDOWN_SECONDS;

verus! {

/// The state of one ledger account as a handler sees it: its address, its
/// owner tag, its balance, its payload, and whether it signed the
/// transaction.
#[derive(Debug)]
pub struct AccountState {
    pub address: Pubkey,
    pub owner: Pubkey,
    pub lamports: u64,
    pub data: Vec<u8>,
    pub is_signer: bool,
}

/// The mathematical value of an account's state.
#[verifier::ext_equal]
pub struct AccountV {
    pub address: Seq<u8>,
    pub owner: Seq<u8>,
    pub lamports: u64,
    pub data: Seq<u8>,
    pub is_signer: bool,
}

impl View for AccountState {
    type V = AccountV;

    open spec fn view(&self) -> AccountV {
        AccountV {
            address: self.address@,
            owner: self.owner@,
            lamports: self.lamports,
            data: self.data@,
            is_signer: self.is_signer,
        }
    }
}

/// The values of a declared account list.
pub open spec fn spec_accounts(accounts: Seq<AccountState>) -> Seq<AccountV> {
    accounts.map_values(|a: AccountState| a@)
}

/// Who authorizes a token transfer.
#[derive(Debug)]
pub enum TransferAuthority {
    /// The token owner signed the transaction themselves.
    Owner(Pubkey),
    /// The program signs as the derived escrow authority, using the
    /// derivation's bump seed as signing material.
    EscrowAuthority { address: Pubkey, bump_seed: u8 },
}

/// The mathematical value of a transfer authority.
#[verifier::ext_equal]
pub enum TransferAuthorityV {
    Owner(Seq<u8>),
    EscrowAuthority { address: Seq<u8>, bump_seed: u8 },
}

impl View for TransferAuthority {
    type V = TransferAuthorityV;

    open spec fn view(&self) -> TransferAuthorityV {
        match self {
            TransferAuthority::Owner(k) => TransferAuthorityV::Owner(k@),
            TransferAuthority::EscrowAuthority { address, bump_seed } => {
                TransferAuthorityV::EscrowAuthority { address: address@, bump_seed: *bump_seed }
            },
        }
    }
}

/// One token transfer for the host's token ledger to perform.
#[derive(Debug)]
pub struct TokenTransfer {
    pub source: Pubkey,
    pub destination: Pubkey,
    pub mint: Pubkey,
    pub amount: u64,
    pub decimals: u8,
    pub authority: TransferAuthority,
}

/// The mathematical value of a token transfer.
#[verifier::ext_equal]
pub struct TokenTransferV {
    pub source: Seq<u8>,
    pub destination: Seq<u8>,
    pub mint: Seq<u8>,
    pub amount: u64,
    pub decimals: u8,
    pub authority: TransferAuthorityV,
}

impl View for TokenTransfer {
    type V = TokenTransferV;

    open spec fn view(&self) -> TokenTransferV {
        TokenTransferV {
            source: self.source@,
            destination: self.destination@,
            mint: self.mint@,
            amount: self.amount,
            decimals: self.decimals,
            authority: self.authority@,
        }
    }
}

/// The full effect of a successful `Lockup`.
#[derive(Debug)]
pub struct LockupEffects {
    /// The lockup account with its record written.
    pub lockup_account: AccountState,
    /// The deposit: `amount` tokens from the depositor's token account into
    /// the escrow token account, authorized by the token owner.
    pub transfer: TokenTransfer,
}

/// The mathematical value of a `Lockup` effect.
#[verifier::ext_equal]
pub struct LockupEffectsV {
    pub lockup_account: AccountV,
    pub transfer: TokenTransferV,
}

impl View for LockupEffects {
    type V = LockupEffectsV;

    open spec fn view(&self) -> LockupEffectsV {
        LockupEffectsV { lockup_account: self.lockup_account@, transfer: self.transfer@ }
    }
}

/// The full effect of a successful `Unlock`.
#[derive(Debug)]
pub struct UnlockEffects {
    /// The lockup account with its cooldown deadline written.
    pub lockup_account: AccountState,
}

/// The mathematical value of an `Unlock` effect.
#[verifier::ext_equal]
pub struct UnlockEffectsV {
    pub lockup_account: AccountV,
}

impl View for UnlockEffects {
    type V = UnlockEffectsV;

    open spec fn view(&self) -> UnlockEffectsV {
        UnlockEffectsV { lockup_account: self.lockup_account@ }
    }
}

/// The full effect of a successful `Withdraw`.
#[derive(Debug)]
pub struct WithdrawEffects {
    /// The payout: the record's amount from the escrow token account to the
    /// token destination, signed by the program as the escrow authority.
    pub transfer: TokenTransfer,
    /// The lockup account, deleted: zero lamports, empty payload, owned by
    /// the system program.
    pub lockup_account: AccountState,
    /// The lamport destination, with the lockup account's rent lamports
    /// swept in.
    pub lamport_destination: AccountState,
}

/// The mathematical value of a `Withdraw` effect.
#[verifier::ext_equal]
pub struct WithdrawEffectsV {
    pub transfer: TokenTransferV,
    pub lockup_account: AccountV,
    pub lamport_destination: AccountV,
}

impl View for WithdrawEffects {
    type V = WithdrawEffectsV;

    open spec fn view(&self) -> WithdrawEffectsV {
        WithdrawEffectsV {
            transfer: self.transfer@,
            lockup_account: self.lockup_account@,
            lamport_destination: self.lamport_destination@,
        }
    }
}

/// The owner tag of accounts that no program owns: the system program's
/// address, all zero bytes.
pub open spec fn spec_system_program_id() -> Seq<u8> {
    Seq::new(32, |i: int| 0u8)
}

/// Returns the system program's address.
pub fn system_program_id() -> (r: Pubkey)
    ensures
        r@ == spec_system_program_id(),
{
    let bytes = [0u8; 32];
    assert(bytes@ =~= spec_system_program_id());
    Pubkey { bytes }
}

/// Whether a payload starts with the all-zero discriminator that marks an
/// uninitialized account.
pub open spec fn spec_uninitialized_prefix(d: Seq<u8>) -> bool {
    forall|j: int| 0 <= j < 8 ==> d[j] == 0u8
}

/// Whether a payload is an initialized lockup record: exactly the record's
/// size, with the record discriminator in front.
pub open spec fn spec_initialized_lockup(d: Seq<u8>) -> bool {
    d.len() == LOCKUP_LEN && d.subrange(0, 8) == LOCKUP_DISCRIMINATOR@
}

/// Tests whether the first eight bytes of `d` are all zero.
fn prefix8_is_zero(d: &[u8]) -> (r: bool)
    requires
        d@.len() >= 8,
    ensures
        r <==> spec_uninitialized_prefix(d@),
{
    let mut i: usize = 0;
    while i < 8
        invariant
            0 <= i <= 8,
            d@.len() >= 8,
            forall|j: int| 0 <= j < i ==> d@[j] == 0u8,
        decreases 8 - i,
    {
        if *vstd::slice::slice_index_get(d, i) != 0 {
            return false;
        }
        i += 1;
    }
    true
}

/// Tests whether the first eight bytes of `d` are the record discriminator.
fn prefix8_is_discriminator(d: &[u8]) -> (r: bool)
    requires
        d@.len() >= 8,
    ensures
        r <==> d@.subrange(0, 8) == LOCKUP_DISCRIMINATOR@,
{
    let mut i: usize = 0;
    while i < 8
        invariant
            0 <= i <= 8,
            d@.len() >= 8,
            forall|j: int| 0 <= j < i ==> d@[j] == LOCKUP_DISCRIMINATOR@[j],
        decreases 8 - i,
    {
        if *vstd::slice::slice_index_get(d, i) != LOCKUP_DISCRIMINATOR[i] {
            assert(d@.subrange(0, 8)[i as int] != LOCKUP_DISCRIMINATOR@[i as int]);
            return false;
        }
        i += 1;
    }
    assert(d@.subrange(0, 8) =~= LOCKUP_DISCRIMINATOR@);
    true
}

/// The mint's decimals as the token ledger's mint parser reads them from a
/// mint account's payload, or nothing when the payload is no valid mint.
pub uninterp spec fn mint_decimals_of(data: Seq<u8>) -> Option<u8>;

/// Reads a mint's decimals out of its account payload.
///
/// Relies on spl_token_2022's `StateWithExtensions::<Mint>::unpack`: a pure
/// parse of the payload bytes that yields the mint's base state, of which
/// only the decimals are kept.
#[verifier::external_body]
fn unpack_mint_decimals(data: &[u8]) -> (r: Option<u8>)
    ensures
        r == mint_decimals_of(data@),
{
    spl_token_2022::extension::StateWithExtensions::<spl_token_2022::state::Mint>::unpack(data)
        .ok()
        .map(|mint| mint.base.decimals)
}

/// The program-specific condition `e` as a handler returns it.
pub open spec fn spec_lockup_err(e: PaladinLockupError) -> ProgramError {
    ProgramError::Custom(e.spec_code())
}

/// What `Lockup` does: the effect of locking up `amount` tokens at ledger
/// time `now`, or the first precondition that fails.
pub open spec fn spec_process_lockup(
    program_id: Seq<u8>,
    accounts: Seq<AccountV>,
    amount: u64,
    now: u64,
) -> Result<LockupEffectsV, ProgramError> {
    if accounts.len() != 8 {
        Err(ProgramError::NotEnoughAccountKeys)
    } else {
        let lockup_authority = accounts[0];
        let token_owner = accounts[1];
        let depositor_token_account = accounts[2];
        let lockup_account = accounts[3];
        let escrow_authority = accounts[4];
        let escrow_token_account = accounts[5];
        let mint = accounts[6];
        let token_program = accounts[7];
        if !token_owner.is_signer {
            Err(ProgramError::MissingRequiredSignature)
        } else if depositor_token_account.address != associated_token_address_of(
            token_owner.address,
            mint.address,
            token_program.address,
        ) {
            Err(ProgramError::InvalidSeeds)
        } else if lockup_account.owner != program_id {
            Err(ProgramError::InvalidAccountOwner)
        } else if lockup_account.data.len() != LOCKUP_LEN {
            Err(ProgramError::InvalidAccountData)
        } else if !spec_uninitialized_prefix(lockup_account.data) {
            Err(ProgramError::AccountAlreadyInitialized)
        } else if escrow_authority_of(program_id) is None {
            Err(spec_lockup_err(PaladinLockupError::IncorrectEscrowAuthorityAddress))
        } else {
            let (escrow_authority_address, _) = escrow_authority_of(program_id)->Some_0;
            if escrow_authority.address != escrow_authority_address {
                Err(spec_lockup_err(PaladinLockupError::IncorrectEscrowAuthorityAddress))
            } else if escrow_token_account.address != associated_token_address_of(
                escrow_authority_address,
                mint.address,
                token_program.address,
            ) {
                Err(spec_lockup_err(PaladinLockupError::IncorrectEscrowTokenAccount))
            } else if mint_decimals_of(mint.data) is None {
                Err(ProgramError::InvalidAccountData)
            } else {
                let record = LockupV {
                    amount,
                    authority: lockup_authority.address,
                    lockup_start_timestamp: now,
                    lockup_end_timestamp: None,
                    mint: mint.address,
                };
                Ok(
                    LockupEffectsV {
                        lockup_account: AccountV {
                            data: spec_lockup_bytes(record),
                            ..lockup_account
                        },
                        transfer: TokenTransferV {
                            source: depositor_token_account.address,
                            destination: escrow_token_account.address,
                            mint: mint.address,
                            amount,
                            decimals: mint_decimals_of(mint.data)->Some_0,
                            authority: TransferAuthorityV::Owner(token_owner.address),
                        },
                    },
                )
            }
        }
    }
}

/// Locks up `amount` tokens: writes a fresh record into the declared,
/// program-owned, uninitialized lockup account and orders the deposit
/// transfer into the escrow token account.
pub fn process_lockup(
    program_id: &Pubkey,
    accounts: &Vec<AccountState>,
    amount: u64,
    now: u64,
) -> (r: Result<LockupEffects, ProgramError>)
    ensures
        r matches Ok(e) ==> spec_process_lockup(program_id@, spec_accounts(accounts@), amount, now)
            == Ok::<LockupEffectsV, ProgramError>(e@),
        r matches Err(e) ==> spec_process_lockup(program_id@, spec_accounts(accounts@), amount, now)
            == Err::<LockupEffectsV, ProgramError>(e),
{
    if accounts.len() != 8 {
        return Err(ProgramError::NotEnoughAccountKeys);
    }
    if !accounts[1].is_signer {
        return Err(ProgramError::MissingRequiredSignature);
    }
    let expected_depositor = get_associated_token_address(
        &accounts[1].address,
        &accounts[6].address,
        &accounts[7].address,
    );
    if !pubkey_eq(&accounts[2].address, &expected_depositor) {
        return Err(ProgramError::InvalidSeeds);
    }
    if !pubkey_eq(&accounts[3].owner, program_id) {
        return Err(ProgramError::InvalidAccountOwner);
    }
    if accounts[3].data.len() != LOCKUP_LEN {
        return Err(ProgramError::InvalidAccountData);
    }
    if !prefix8_is_zero(accounts[3].data.as_slice()) {
        return Err(ProgramError::AccountAlreadyInitialized);
    }
    let escrow_authority_address = match get_escrow_authority_address_and_bump_seed(program_id) {
        Some((address, _)) => address,
        None => {
            return Err(ProgramError::from(PaladinLockupError::IncorrectEscrowAuthorityAddress));
        },
    };
    if !pubkey_eq(&accounts[4].address, &escrow_authority_address) {
        return Err(ProgramError::from(PaladinLockupError::IncorrectEscrowAuthorityAddress));
    }
    let expected_escrow_token = get_associated_token_address(
        &escrow_authority_address,
        &accounts[6].address,
        &accounts[7].address,
    );
    if !pubkey_eq(&accounts[5].address, &expected_escrow_token) {
        return Err(ProgramError::from(PaladinLockupError::IncorrectEscrowTokenAccount));
    }
    let decimals = match unpack_mint_decimals(accounts[6].data.as_slice()) {
        Some(d) => d,
        None => {
            return Err(ProgramError::InvalidAccountData);
        },
    };
    let record = Lockup {
        amount,
        authority: accounts[0].address,
        lockup_start_timestamp: now,
        lockup_end_timestamp: None,
        mint: accounts[6].address,
    };
    let data = lockup_to_bytes(&record);
    let effects = LockupEffects {
        lockup_account: AccountState {
            address: accounts[3].address,
            owner: accounts[3].owner,
            lamports: accounts[3].lamports,
            data,
            is_signer: accounts[3].is_signer,
        },
        transfer: TokenTransfer {
            source: accounts[2].address,
            destination: accounts[5].address,
            mint: accounts[6].address,
            amount,
            decimals,
            authority: TransferAuthority::Owner(accounts[1].address),
        },
    };
    proof {
        let s = spec_accounts(accounts@);
        assert(spec_process_lockup(program_id@, s, amount, now) =~~= Ok::<
            LockupEffectsV,
            ProgramError,
        >(effects@));
    }
    Ok(effects)
}

/// What `Unlock` does: the effect of starting the cooldown at ledger time
/// `now`, or the first precondition that fails.
pub open spec fn spec_process_unlock(
    program_id: Seq<u8>,
    accounts: Seq<AccountV>,
    now: u64,
) -> Result<UnlockEffectsV, ProgramError> {
    if accounts.len() != 2 {
        Err(ProgramError::NotEnoughAccountKeys)
    } else {
        let lockup_authority = accounts[0];
        let lockup_account = accounts[1];
        if !lockup_authority.is_signer {
            Err(ProgramError::MissingRequiredSignature)
        } else if lockup_account.owner != program_id {
            Err(ProgramError::InvalidAccountOwner)
        } else if !spec_initialized_lockup(lockup_account.data) {
            Err(ProgramError::UninitializedAccount)
        } else {
            let record = spec_parse_lockup(lockup_account.data);
            if record.authority != lockup_authority.address {
                Err(ProgramError::IncorrectAuthority)
            } else if record.lockup_end_timestamp is Some {
                Err(spec_lockup_err(PaladinLockupError::LockupAlreadyUnlocked))
            } else if now + LOCKUP_COOLDOWN_SECONDS > u64::MAX {
                Err(ProgramError::ArithmeticOverflow)
            } else {
                let unlocked = LockupV {
                    lockup_end_timestamp: Some((now + LOCKUP_COOLDOWN_SECONDS) as u64),
                    ..record
                };
                Ok(
                    UnlockEffectsV {
                        lockup_account: AccountV {
                            data: spec_lockup_bytes(unlocked),
                            ..lockup_account
                        },
                    },
                )
            }
        }
    }
}

/// Starts the cooldown of a lockup: sets its deadline to the ledger time
/// plus the fixed cooldown.  Fails if the cooldown already started.
pub fn process_unlock(program_id: &Pubkey, accounts: &Vec<AccountState>, now: u64) -> (r: Result<
    UnlockEffects,
    ProgramError,
>)
    ensures
        r matches Ok(e) ==> spec_process_unlock(program_id@, spec_accounts(accounts@), now)
            == Ok::<UnlockEffectsV, ProgramError>(e@),
        r matches Err(e) ==> spec_process_unlock(program_id@, spec_accounts(accounts@), now)
            == Err::<UnlockEffectsV, ProgramError>(e),
{
    if accounts.len() != 2 {
        return Err(ProgramError::NotEnoughAccountKeys);
    }
    if !accounts[0].is_signer {
        return Err(ProgramError::MissingRequiredSignature);
    }
    if !pubkey_eq(&accounts[1].owner, program_id) {
        return Err(ProgramError::InvalidAccountOwner);
    }
    if !(accounts[1].data.len() == LOCKUP_LEN && prefix8_is_discriminator(
        accounts[1].data.as_slice(),
    )) {
        return Err(ProgramError::UninitializedAccount);
    }
    let record = lockup_from_bytes(accounts[1].data.as_slice());
    if !pubkey_eq(&record.authority, &accounts[0].address) {
        return Err(ProgramError::IncorrectAuthority);
    }
    if record.lockup_end_timestamp.is_some() {
        return Err(ProgramError::from(PaladinLockupError::LockupAlreadyUnlocked));
    }
    let deadline = match now.checked_add(LOCKUP_COOLDOWN_SECONDS) {
        Some(t) => t,
        None => {
            return Err(ProgramError::ArithmeticOverflow);
        },
    };
    let unlocked = Lockup { lockup_end_timestamp: Some(deadline), ..record };
    let data = lockup_to_bytes(&unlocked);
    let effects = UnlockEffects {
        lockup_account: AccountState {
            address: accounts[1].address,
            owner: accounts[1].owner,
            lamports: accounts[1].lamports,
            data,
            is_signer: accounts[1].is_signer,
        },
    };
    proof {
        let s = spec_accounts(accounts@);
        assert(spec_process_unlock(program_id@, s, now) =~~= Ok::<UnlockEffectsV, ProgramError>(
            effects@,
        ));
    }
    Ok(effects)
}

/// What `Withdraw` does: the effect of paying out an elapsed lockup at
/// ledger time `now` and deleting its record, or the first precondition
/// that fails.
pub open spec fn spec_process_withdraw(
    program_id: Seq<u8>,
    accounts: Seq<AccountV>,
    now: u64,
) -> Result<WithdrawEffectsV, ProgramError> {
    if accounts.len() != 8 {
        Err(ProgramError::NotEnoughAccountKeys)
    } else {
        let lockup_authority = accounts[0];
        let lamport_destination = accounts[1];
        let token_destination = accounts[2];
        let lockup_account = accounts[3];
        let escrow_authority = accounts[4];
        let escrow_token_account = accounts[5];
        let mint = accounts[6];
        let token_program = accounts[7];
        if lockup_account.owner != program_id {
            Err(ProgramError::InvalidAccountOwner)
        } else if !spec_initialized_lockup(lockup_account.data) {
            Err(ProgramError::UninitializedAccount)
        } else if escrow_authority_of(program_id) is None {
            Err(spec_lockup_err(PaladinLockupError::IncorrectEscrowAuthorityAddress))
        } else {
            let (escrow_authority_address, bump_seed) = escrow_authority_of(program_id)->Some_0;
            if escrow_authority.address != escrow_authority_address {
                Err(spec_lockup_err(PaladinLockupError::IncorrectEscrowAuthorityAddress))
            } else if escrow_token_account.address != associated_token_address_of(
                escrow_authority_address,
                mint.address,
                token_program.address,
            ) {
                Err(spec_lockup_err(PaladinLockupError::IncorrectEscrowTokenAccount))
            } else {
                let record = spec_parse_lockup(lockup_account.data);
                if !lockup_authority.is_signer {
                    Err(ProgramError::MissingRequiredSignature)
                } else if record.authority != lockup_authority.address {
                    Err(ProgramError::IncorrectAuthority)
                } else if record.mint != mint.address {
                    Err(spec_lockup_err(PaladinLockupError::IncorrectMint))
                } else if match record.lockup_end_timestamp {
                    None => true,
                    Some(deadline) => deadline > now,
                } {
                    Err(spec_lockup_err(PaladinLockupError::LockupActive))
                } else if mint_decimals_of(mint.data) is None {
                    Err(ProgramError::InvalidAccountData)
                } else if lamport_destination.lamports + lockup_account.lamports > u64::MAX {
                    Err(ProgramError::ArithmeticOverflow)
                } else {
                    Ok(
                        WithdrawEffectsV {
                            transfer: TokenTransferV {
                                source: escrow_token_account.address,
                                destination: token_destination.address,
                                mint: mint.address,
                                amount: record.amount,
                                decimals: mint_decimals_of(mint.data)->Some_0,
                                authority: TransferAuthorityV::EscrowAuthority {
                                    address: escrow_authority_address,
                                    bump_seed,
                                },
                            },
                            lockup_account: AccountV {
                                address: lockup_account.address,
                                owner: spec_system_program_id(),
                                lamports: 0u64,
                                data: Seq::empty(),
                                is_signer: lockup_account.is_signer,
                            },
                            lamport_destination: AccountV {
                                lamports: (lamport_destination.lamports
                                    + lockup_account.lamports) as u64,
                                ..lamport_destination
                            },
                        },
                    )
                }
            }
        }
    }
}

/// Withdraws an elapsed lockup: orders the payout transfer out of escrow,
/// sweeps the record account's rent lamports to the lamport destination,
/// and deletes the record account.  This is the sole path that destroys a
/// record.
pub fn process_withdraw(program_id: &Pubkey, accounts: &Vec<AccountState>, now: u64) -> (r: Result<
    WithdrawEffects,
    ProgramError,
>)
    ensures
        r matches Ok(e) ==> spec_process_withdraw(program_id@, spec_accounts(accounts@), now)
            == Ok::<WithdrawEffectsV, ProgramError>(e@),
        r matches Err(e) ==> spec_process_withdraw(program_id@, spec_accounts(accounts@), now)
            == Err::<WithdrawEffectsV, ProgramError>(e),
{
    if accounts.len() != 8 {
        return Err(ProgramError::NotEnoughAccountKeys);
    }
    if !pubkey_eq(&accounts[3].owner, program_id) {
        return Err(ProgramError::InvalidAccountOwner);
    }
    if !(accounts[3].data.len() == LOCKUP_LEN && prefix8_is_discriminator(
        accounts[3].data.as_slice(),
    )) {
        return Err(ProgramError::UninitializedAccount);
    }
    let (escrow_authority_address, bump_seed) = match get_escrow_authority_address_and_bump_seed(
        program_id,
    ) {
        Some(p) => p,
        None => {
            return Err(ProgramError::from(PaladinLockupError::IncorrectEscrowAuthorityAddress));
        },
    };
    if !pubkey_eq(&accounts[4].address, &escrow_authority_address) {
        return Err(ProgramError::from(PaladinLockupError::IncorrectEscrowAuthorityAddress));
    }
    let expected_escrow_token = get_associated_token_address(
        &escrow_authority_address,
        &accounts[6].address,
        &accounts[7].address,
    );
    if !pubkey_eq(&accounts[5].address, &expected_escrow_token) {
        return Err(ProgramError::from(PaladinLockupError::IncorrectEscrowTokenAccount));
    }
    let record = lockup_from_bytes(accounts[3].data.as_slice());
    if !accounts[0].is_signer {
        return Err(ProgramError::MissingRequiredSignature);
    }
    if !pubkey_eq(&record.authority, &accounts[0].address) {
        return Err(ProgramError::IncorrectAuthority);
    }
    if !pubkey_eq(&record.mint, &accounts[6].address) {
        return Err(ProgramError::from(PaladinLockupError::IncorrectMint));
    }
    let still_active = match record.lockup_end_timestamp {
        None => true,
        Some(deadline) => deadline > now,
    };
    if still_active {
        return Err(ProgramError::from(PaladinLockupError::LockupActive));
    }
    let decimals = match unpack_mint_decimals(accounts[6].data.as_slice()) {
        Some(d) => d,
        None => {
            return Err(ProgramError::InvalidAccountData);
        },
    };
    let swept_lamports = match accounts[1].lamports.checked_add(accounts[3].lamports) {
        Some(v) => v,
        None => {
            return Err(ProgramError::ArithmeticOverflow);
        },
    };
    let effects = WithdrawEffects {
        transfer: TokenTransfer {
            source: accounts[5].address,
            destination: accounts[2].address,
            mint: accounts[6].address,
            amount: record.amount,
            decimals,
            authority: TransferAuthority::EscrowAuthority {
                address: escrow_authority_address,
                bump_seed,
            },
        },
        lockup_account: AccountState {
            address: accounts[3].address,
            owner: system_program_id(),
            lamports: 0,
            data: Vec::new(),
            is_signer: accounts[3].is_signer,
        },
        lamport_destination: AccountState {
            address: accounts[1].address,
            owner: accounts[1].owner,
            lamports: swept_lamports,
            data: copy_bytes(&accounts[1].data),
            is_signer: accounts[1].is_signer,
        },
    };
    proof {
        let s = spec_accounts(accounts@);
        assert(spec_process_withdraw(program_id@, s, now) =~~= Ok::<
            WithdrawEffectsV,
            ProgramError,
        >(effects@));
    }
    Ok(effects)
}

/// Copies a byte vector.
fn copy_bytes(v: &Vec<u8>) -> (r: Vec<u8>)
    ensures
        r@ == v@,
{
    let mut out: Vec<u8> = Vec::new();
    let mut i: usize = 0;
    while i < v.len()
        invariant
            0 <= i <= v@.len(),
            out@ == v@.subrange(0, i as int),
        decreases v@.len() - i,
    {
        out.push(v[i]);
        assert(out@ =~= v@.subrange(0, i + 1));
        i += 1;
    }
    assert(out@ =~= v@);
    out
}

/// The effect of one instruction, by operation.
#[derive(Debug)]
pub enum InstructionEffects {
    Lockup(LockupEffects),
    Unlock(UnlockEffects),
    Withdraw(WithdrawEffects),
}

/// The mathematical value of an instruction's effect.
#[verifier::ext_equal]
pub enum InstructionEffectsV {
    Lockup(LockupEffectsV),
    Unlock(UnlockEffectsV),
    Withdraw(WithdrawEffectsV),
}

impl View for InstructionEffects {
    type V = InstructionEffectsV;

    open spec fn view(&self) -> InstructionEffectsV {
        match self {
            InstructionEffects::Lockup(e) => InstructionEffectsV::Lockup(e@),
            InstructionEffects::Unlock(e) => InstructionEffectsV::Unlock(e@),
            InstructionEffects::Withdraw(e) => InstructionEffectsV::Withdraw(e@),
        }
    }
}

/// What `process` does: decodes the instruction bytes and runs the matching
/// handler over the declared accounts at ledger time `now`.
pub open spec fn spec_process(
    program_id: Seq<u8>,
    accounts: Seq<AccountV>,
    input: Seq<u8>,
    now: u64,
) -> Result<InstructionEffectsV, ProgramError> {
    match spec_unpack(input) {
        Err(e) => Err(e),
        Ok(PaladinLockupInstruction::Lockup { amount }) => {
            match spec_process_lockup(program_id, accounts, amount, now) {
                Ok(e) => Ok(InstructionEffectsV::Lockup(e)),
                Err(e) => Err(e),
            }
        },
        Ok(PaladinLockupInstruction::Unlock) => {
            match spec_process_unlock(program_id, accounts, now) {
                Ok(e) => Ok(InstructionEffectsV::Unlock(e)),
                Err(e) => Err(e),
            }
        },
        Ok(PaladinLockupInstruction::Withdraw) => {
            match spec_process_withdraw(program_id, accounts, now) {
                Ok(e) => Ok(InstructionEffectsV::Withdraw(e)),
                Err(e) => Err(e),
            }
        },
    }
}

/// Decodes an instruction and processes it.
pub fn process(program_id: &Pubkey, accounts: &Vec<AccountState>, input: &[u8], now: u64) -> (r:
    Result<InstructionEffects, ProgramError>)
    ensures
        r matches Ok(e) ==> spec_process(program_id@, spec_accounts(accounts@), input@, now)
            == Ok::<InstructionEffectsV, ProgramError>(e@),
        r matches Err(e) ==> spec_process(program_id@, spec_accounts(accounts@), input@, now)
            == Err::<InstructionEffectsV, ProgramError>(e),
{
    let instruction = match PaladinLockupInstruction::unpack(input) {
        Ok(i) => i,
        Err(e) => {
            return Err(e);
        },
    };
    match instruction {
        PaladinLockupInstruction::Lockup { amount } => {
            match process_lockup(program_id, accounts, amount, now) {
                Ok(e) => Ok(InstructionEffects::Lockup(e)),
                Err(e) => Err(e),
            }
        },
        PaladinLockupInstruction::Unlock => {
            match process_unlock(program_id, accounts, now) {
                Ok(e) => Ok(InstructionEffects::Unlock(e)),
                Err(e) => Err(e),
            }
        },
        PaladinLockupInstruction::Withdraw => {
            match process_withdraw(program_id, accounts, now) {
                Ok(e) => Ok(InstructionEffects::Withdraw(e)),
                Err(e) => Err(e),
            }
        },
    }
}

} // verus!
