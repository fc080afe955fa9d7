//! Laws of the processor: properties that hold for every input, proved from
//! the handlers' specifications.

use vstd::prelude::*;

use crate::error::PaladinLockupError;
use crate::error::ProgramError;
use crate::processor::spec_lockup_err;
use crate::processor::spec_process_lockup;
use crate::processor::spec_process_unlock;
use crate::processor::spec_process_withdraw;
use crate::processor::mint_decimals_of;
use crate::processor::spec_system_program_id;
use crate::processor::spec_initialized_lockup;
use crate::processor::AccountV;
use crate::processor::LockupEffectsV;
use crate::processor::UnlockEffectsV;
use crate::processor::WithdrawEffectsV;
use crate::state::associated_token_address_of;
use crate::state::escrow_authority_of;
use crate::state::lemma_lockup_roundtrip;
use crate::state::spec_parse_lockup;
use crate::state::LockupV;
use crate::state::LOCKUP_DISCRIMINATOR;
use crate::LOCKUP_COOLDOWN_SECONDS;

verus! {

/// Law: a lockup account can be initialized only once.  After a successful
/// `Lockup`, running `Lockup` again over the same account list with the
/// lockup account in its new state fails with the already-initialized
/// condition, whatever the amount and whatever the time.
pub proof fn lemma_no_double_initialization(
    program_id: Seq<u8>,
    accounts: Seq<AccountV>,
    accounts_after: Seq<AccountV>,
    amount1: u64,
    amount2: u64,
    now1: u64,
    now2: u64,
    e: LockupEffectsV,
)
    requires
        spec_process_lockup(program_id, accounts, amount1, now1) == Ok::<
            LockupEffectsV,
            ProgramError,
        >(e),
        accounts[0].address.len() == 32,
        accounts[6].address.len() == 32,
        accounts_after == accounts.update(3, e.lockup_account),
    ensures
        spec_process_lockup(program_id, accounts_after, amount2, now2) == Err::<
            LockupEffectsV,
            ProgramError,
        >(ProgramError::AccountAlreadyInitialized),
{
    let record = LockupV {
        amount: amount1,
        authority: accounts[0].address,
        lockup_start_timestamp: now1,
        lockup_end_timestamp: None,
        mint: accounts[6].address,
    };
    lemma_lockup_roundtrip(record);
    assert(e.lockup_account.data.subrange(0, 8) =~= LOCKUP_DISCRIMINATOR@);
    assert(e.lockup_account.data[0] == 0xceu8);
}

/// Law: tokens never leave escrow before the cooldown deadline.  A
/// successful `Withdraw` implies that the stored record's deadline exists
/// and has been reached; on any account list whose record is still locked
/// or still cooling down, `Withdraw` returns an error, so no transfer is
/// ordered.
pub proof fn lemma_no_premature_withdrawal(
    program_id: Seq<u8>,
    accounts: Seq<AccountV>,
    now: u64,
    e: WithdrawEffectsV,
)
    requires
        spec_process_withdraw(program_id, accounts, now) == Ok::<
            WithdrawEffectsV,
            ProgramError,
        >(e),
    ensures
        spec_initialized_lockup(accounts[3].data),
        (spec_parse_lockup(accounts[3].data).lockup_end_timestamp matches Some(deadline)
            && deadline <= now),
{
}

/// Law: given an account list whose non-temporal preconditions all hold,
/// `Withdraw` succeeds exactly when the record's cooldown deadline exists
/// and has been reached, and fails with the active-lockup condition
/// otherwise.
pub proof fn lemma_withdraw_iff_deadline_reached(
    program_id: Seq<u8>,
    accounts: Seq<AccountV>,
    now: u64,
)
    requires
        accounts.len() == 8,
        accounts[3].owner == program_id,
        spec_initialized_lockup(accounts[3].data),
        escrow_authority_of(program_id) is Some,
        accounts[4].address == escrow_authority_of(program_id)->Some_0.0,
        accounts[5].address == associated_token_address_of(
            escrow_authority_of(program_id)->Some_0.0,
            accounts[6].address,
            accounts[7].address,
        ),
        accounts[0].is_signer,
        spec_parse_lockup(accounts[3].data).authority == accounts[0].address,
        spec_parse_lockup(accounts[3].data).mint == accounts[6].address,
        mint_decimals_of(accounts[6].data) is Some,
        accounts[1].lamports + accounts[3].lamports <= u64::MAX,
    ensures
        spec_process_withdraw(program_id, accounts, now) is Ok <==> (spec_parse_lockup(
            accounts[3].data,
        ).lockup_end_timestamp matches Some(deadline) && deadline <= now),
        spec_process_withdraw(program_id, accounts, now) is Err ==> spec_process_withdraw(
            program_id,
            accounts,
            now,
        ) == Err::<WithdrawEffectsV, ProgramError>(spec_lockup_err(PaladinLockupError::LockupActive)),
{
}

/// Law: `Unlock` sets the cooldown deadline to the ledger time plus the
/// fixed cooldown, a moment that is never in the past, and the new payload
/// is an initialized record that differs from the old one in its deadline
/// alone.
pub proof fn lemma_unlock_sets_future_deadline(
    program_id: Seq<u8>,
    accounts: Seq<AccountV>,
    now: u64,
    e: UnlockEffectsV,
)
    requires
        spec_process_unlock(program_id, accounts, now) == Ok::<UnlockEffectsV, ProgramError>(e),
    ensures
        spec_initialized_lockup(e.lockup_account.data),
        (spec_parse_lockup(e.lockup_account.data) == LockupV {
            lockup_end_timestamp: Some((now + LOCKUP_COOLDOWN_SECONDS) as u64),
            ..spec_parse_lockup(accounts[1].data)
        }),
        (spec_parse_lockup(e.lockup_account.data).lockup_end_timestamp matches Some(deadline)
            && deadline >= now),
{
    let record = spec_parse_lockup(accounts[1].data);
    let unlocked = LockupV {
        lockup_end_timestamp: Some((now + LOCKUP_COOLDOWN_SECONDS) as u64),
        ..record
    };
    assert(record.authority =~= accounts[1].data.subrange(16, 48));
    lemma_lockup_roundtrip(unlocked);
    assert(e.lockup_account.data.subrange(0, 8) =~= LOCKUP_DISCRIMINATOR@);
}

/// Law: a lockup, once unlocked, cannot be unlocked again; the cooldown
/// deadline cannot be pushed back.
pub proof fn lemma_no_re_unlock(
    program_id: Seq<u8>,
    accounts: Seq<AccountV>,
    accounts_after: Seq<AccountV>,
    now1: u64,
    now2: u64,
    e: UnlockEffectsV,
)
    requires
        spec_process_unlock(program_id, accounts, now1) == Ok::<UnlockEffectsV, ProgramError>(e),
        accounts_after == accounts.update(1, e.lockup_account),
    ensures
        spec_process_unlock(program_id, accounts_after, now2) == Err::<
            UnlockEffectsV,
            ProgramError,
        >(spec_lockup_err(PaladinLockupError::LockupAlreadyUnlocked)),
{
    lemma_unlock_sets_future_deadline(program_id, accounts, now1, e);
}

/// Law: only the record's stored authority can progress a lockup.  An
/// `Unlock` whose signer differs from the stored authority fails with the
/// authorization condition, and a successful `Unlock` implies the signer
/// is the stored authority.
pub proof fn lemma_authority_exclusivity_unlock(
    program_id: Seq<u8>,
    accounts: Seq<AccountV>,
    now: u64,
)
    requires
        accounts.len() == 2,
        accounts[0].is_signer,
        accounts[1].owner == program_id,
        spec_initialized_lockup(accounts[1].data),
        spec_parse_lockup(accounts[1].data).authority != accounts[0].address,
    ensures
        spec_process_unlock(program_id, accounts, now) == Err::<UnlockEffectsV, ProgramError>(
            ProgramError::IncorrectAuthority,
        ),
{
}

/// Law: a successful `Unlock` was signed by the stored authority.
pub proof fn lemma_unlock_requires_authority(
    program_id: Seq<u8>,
    accounts: Seq<AccountV>,
    now: u64,
    e: UnlockEffectsV,
)
    requires
        spec_process_unlock(program_id, accounts, now) == Ok::<UnlockEffectsV, ProgramError>(e),
    ensures
        accounts[0].is_signer,
        spec_parse_lockup(accounts[1].data).authority == accounts[0].address,
{
}

/// Law: only the record's stored authority can withdraw.  A `Withdraw`
/// whose signer differs from the stored authority fails with the
/// authorization condition, however valid the other accounts are.
pub proof fn lemma_authority_exclusivity_withdraw(
    program_id: Seq<u8>,
    accounts: Seq<AccountV>,
    now: u64,
)
    requires
        accounts.len() == 8,
        accounts[3].owner == program_id,
        spec_initialized_lockup(accounts[3].data),
        escrow_authority_of(program_id) is Some,
        accounts[4].address == escrow_authority_of(program_id)->Some_0.0,
        accounts[5].address == associated_token_address_of(
            escrow_authority_of(program_id)->Some_0.0,
            accounts[6].address,
            accounts[7].address,
        ),
        accounts[0].is_signer,
        spec_parse_lockup(accounts[3].data).authority != accounts[0].address,
    ensures
        spec_process_withdraw(program_id, accounts, now) == Err::<
            WithdrawEffectsV,
            ProgramError,
        >(ProgramError::IncorrectAuthority),
{
}

/// Law: a successful `Withdraw` was signed by the stored authority.
pub proof fn lemma_withdraw_requires_authority(
    program_id: Seq<u8>,
    accounts: Seq<AccountV>,
    now: u64,
    e: WithdrawEffectsV,
)
    requires
        spec_process_withdraw(program_id, accounts, now) == Ok::<
            WithdrawEffectsV,
            ProgramError,
        >(e),
    ensures
        accounts[0].is_signer,
        spec_parse_lockup(accounts[3].data).authority == accounts[0].address,
{
}

/// Law: `Withdraw` is terminal.  A successful `Withdraw` leaves the lockup
/// account with no payload, no lamports and the system owner, and a further
/// `Withdraw` over the deleted account fails at the ownership check.  The
/// hypothesis that the program's identity is not the system program holds
/// of every deployed program.
pub proof fn lemma_terminal_deletion(
    program_id: Seq<u8>,
    accounts: Seq<AccountV>,
    accounts_after: Seq<AccountV>,
    now1: u64,
    now2: u64,
    e: WithdrawEffectsV,
)
    requires
        spec_process_withdraw(program_id, accounts, now1) == Ok::<
            WithdrawEffectsV,
            ProgramError,
        >(e),
        accounts_after == accounts.update(3, e.lockup_account),
        program_id != spec_system_program_id(),
    ensures
        e.lockup_account.data.len() == 0,
        e.lockup_account.lamports == 0,
        e.lockup_account.owner == spec_system_program_id(),
        spec_process_withdraw(program_id, accounts_after, now2) == Err::<
            WithdrawEffectsV,
            ProgramError,
        >(ProgramError::InvalidAccountOwner),
{
}

/// A bookkeeping model of one mint's escrow: one slot per lockup account,
/// holding the open record if the account is initialized, and the balance
/// of the escrow token account.
pub struct EscrowLedgerV {
    pub records: Seq<Option<LockupV>>,
    pub escrow_balance: int,
}

/// The sum of the amounts of the open records.
pub open spec fn spec_open_amounts(records: Seq<Option<LockupV>>) -> int
    decreases records.len(),
{
    if records.len() == 0 {
        0
    } else {
        (match records[0] {
            Some(r) => r.amount as int,
            None => 0int,
        }) + spec_open_amounts(records.drop_first())
    }
}

/// Conservation: the escrow balance equals the sum of the open amounts.
pub open spec fn spec_conserved(ledger: EscrowLedgerV) -> bool {
    ledger.escrow_balance == spec_open_amounts(ledger.records)
}

/// How replacing one slot changes the sum of the open amounts.
proof fn lemma_open_amounts_update(records: Seq<Option<LockupV>>, i: int, v: Option<LockupV>)
    requires
        0 <= i < records.len(),
    ensures
        spec_open_amounts(records.update(i, v)) == spec_open_amounts(records) - (match records[i] {
            Some(r) => r.amount as int,
            None => 0int,
        }) + (match v {
            Some(r) => r.amount as int,
            None => 0int,
        }),
    decreases records.len(),
{
    if i == 0 {
        assert(records.update(0, v).drop_first() =~= records.drop_first());
    } else {
        assert(records.update(i, v).drop_first() =~= records.drop_first().update(i - 1, v));
        lemma_open_amounts_update(records.drop_first(), i - 1, v);
    }
}

/// Law, conservation under `Lockup`: a successful lockup moves exactly the
/// new record's amount into escrow.  If the balance equalled the sum of the
/// open amounts, and the lockup account filled an empty slot, then after
/// recording the new record and crediting the ordered transfer's amount the
/// balance again equals the sum.
pub proof fn lemma_lockup_preserves_conservation(
    ledger: EscrowLedgerV,
    i: int,
    program_id: Seq<u8>,
    accounts: Seq<AccountV>,
    amount: u64,
    now: u64,
    e: LockupEffectsV,
)
    requires
        spec_conserved(ledger),
        0 <= i < ledger.records.len(),
        ledger.records[i] is None,
        spec_process_lockup(program_id, accounts, amount, now) == Ok::<
            LockupEffectsV,
            ProgramError,
        >(e),
        accounts[0].address.len() == 32,
        accounts[6].address.len() == 32,
    ensures
        e.transfer.amount == amount,
        spec_conserved(
            EscrowLedgerV {
                records: ledger.records.update(
                    i,
                    Some(spec_parse_lockup(e.lockup_account.data)),
                ),
                escrow_balance: ledger.escrow_balance + e.transfer.amount,
            },
        ),
{
    let record = LockupV {
        amount,
        authority: accounts[0].address,
        lockup_start_timestamp: now,
        lockup_end_timestamp: None,
        mint: accounts[6].address,
    };
    lemma_lockup_roundtrip(record);
    lemma_open_amounts_update(ledger.records, i, Some(record));
}

/// Law, conservation under `Withdraw`: a successful withdrawal moves
/// exactly the withdrawn record's amount out of escrow.  If the balance
/// equalled the sum of the open amounts, and the withdrawn record occupied
/// its slot, then after emptying the slot and debiting the ordered
/// transfer's amount the balance again equals the sum.
pub proof fn lemma_withdraw_preserves_conservation(
    ledger: EscrowLedgerV,
    i: int,
    program_id: Seq<u8>,
    accounts: Seq<AccountV>,
    now: u64,
    e: WithdrawEffectsV,
)
    requires
        spec_conserved(ledger),
        0 <= i < ledger.records.len(),
        ledger.records[i] == Some(spec_parse_lockup(accounts[3].data)),
        spec_process_withdraw(program_id, accounts, now) == Ok::<
            WithdrawEffectsV,
            ProgramError,
        >(e),
    ensures
        e.transfer.amount == spec_parse_lockup(accounts[3].data).amount,
        spec_conserved(
            EscrowLedgerV {
                records: ledger.records.update(i, None),
                escrow_balance: ledger.escrow_balance - e.transfer.amount,
            },
        ),
{
    lemma_open_amounts_update(ledger.records, i, None);
}

} // verus!
