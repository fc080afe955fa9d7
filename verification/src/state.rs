//! The lockup record, its byte layout, and escrow address derivation.
//!
//! A lockup account's payload is a fixed-size record: an eight-byte
//! discriminator tag followed by the record's fields, each little-endian.
//! An all-zero discriminator marks the account as not yet initialized.

use vstd::bytes::spec_u64_from_le_bytes;
use vstd::bytes::spec_u64_to_le_bytes;
use vstd::bytes::u64_from_le_bytes;
use vstd::bytes::u64_to_le_bytes;
use vstd::prelude::*;
use vstd::slice::slice_index_get;
use vstd::slice::slice_subrange;

verus! {

/// A 32-byte account address.
#[derive(Clone, Copy, Debug)]
pub struct Pubkey {
    pub bytes: [u8; 32],
}

impl View for Pubkey {
    type V = Seq<u8>;

    open spec fn view(&self) -> Seq<u8> {
        self.bytes@
    }
}

impl PartialEq for Pubkey {
    fn eq(&self, other: &Pubkey) -> bool {
        pubkey_eq(self, other)
    }
}

impl vstd::std_specs::cmp::PartialEqSpecImpl for Pubkey {
    open spec fn obeys_eq_spec() -> bool {
        true
    }

    open spec fn eq_spec(&self, other: &Pubkey) -> bool {
        self.bytes@ == other.bytes@
    }
}

/// Compares two addresses byte for byte.
pub fn pubkey_eq(a: &Pubkey, b: &Pubkey) -> (r: bool)
    ensures
        r <==> a@ == b@,
{
    let mut i: usize = 0;
    while i < 32
        invariant
            0 <= i <= 32,
            forall|j: int| 0 <= j < i ==> a.bytes@[j] == b.bytes@[j],
        decreases 32 - i,
    {
        if a.bytes[i] != b.bytes[i] {
            assert(a@ != b@);
            return false;
        }
        i += 1;
    }
    assert(a@ =~= b@);
    true
}

/// Byte length of a lockup account's payload.
pub const LOCKUP_LEN: usize = 96;

/// The discriminator tag of an initialized lockup record: the first eight
/// bytes of the SHA-256 hash of the record type's name, `lockup::state::lockup`.
pub const LOCKUP_DISCRIMINATOR: [u8; 8] = [0xce, 0xb2, 0xfc, 0xec, 0xcf, 0x41, 0x78, 0xa8];

/// A lockup record: one deposit's state, held in one ledger account.
#[derive(Clone, Copy, Debug)]
pub struct Lockup {
    /// Amount of tokens held in escrow for this lockup.
    pub amount: u64,
    /// Who may unlock and withdraw this lockup.  Set once at creation.
    pub authority: Pubkey,
    /// The ledger time at which the lockup was created.
    pub lockup_start_timestamp: u64,
    /// `None` while the lockup is still locked; the cooldown deadline once
    /// unlocked.  Stored on the wire as a u64, with zero meaning `None`.
    pub lockup_end_timestamp: Option<u64>,
    /// The mint of the tokens under lockup.
    pub mint: Pubkey,
}

/// The mathematical value of a lockup record.
pub struct LockupV {
    pub amount: u64,
    pub authority: Seq<u8>,
    pub lockup_start_timestamp: u64,
    pub lockup_end_timestamp: Option<u64>,
    pub mint: Seq<u8>,
}

impl View for Lockup {
    type V = LockupV;

    open spec fn view(&self) -> LockupV {
        LockupV {
            amount: self.amount,
            authority: self.authority@,
            lockup_start_timestamp: self.lockup_start_timestamp,
            lockup_end_timestamp: self.lockup_end_timestamp,
            mint: self.mint@,
        }
    }
}

impl LockupV {
    /// A record is well formed when its deadline, if any, is representable on
    /// the wire: zero is the wire encoding of "no deadline".
    pub open spec fn wf(self) -> bool {
        &&& self.lockup_end_timestamp != Some(0u64)
        &&& self.authority.len() == 32
        &&& self.mint.len() == 32
    }
}

/// The u64 under which a deadline is stored: zero when there is none.
pub open spec fn spec_end_code(end: Option<u64>) -> u64 {
    match end {
        None => 0u64,
        Some(t) => t,
    }
}

/// The deadline that a stored u64 encodes.
pub open spec fn spec_decode_end(x: u64) -> Option<u64> {
    if x == 0u64 {
        None
    } else {
        Some(x)
    }
}

/// The payload bytes of an initialized lockup account holding `l`.
pub open spec fn spec_lockup_bytes(l: LockupV) -> Seq<u8> {
    LOCKUP_DISCRIMINATOR@ + spec_u64_to_le_bytes(l.amount) + l.authority + spec_u64_to_le_bytes(
        l.lockup_start_timestamp,
    ) + spec_u64_to_le_bytes(spec_end_code(l.lockup_end_timestamp)) + l.mint
}

/// The record that a 96-byte payload holds, disregarding its discriminator.
pub open spec fn spec_parse_lockup(d: Seq<u8>) -> LockupV
    recommends
        d.len() == LOCKUP_LEN,
{
    LockupV {
        amount: spec_u64_from_le_bytes(d.subrange(8, 16)),
        authority: d.subrange(16, 48),
        lockup_start_timestamp: spec_u64_from_le_bytes(d.subrange(48, 56)),
        lockup_end_timestamp: spec_decode_end(spec_u64_from_le_bytes(d.subrange(56, 64))),
        mint: d.subrange(64, 96),
    }
}

/// Copies the 32 bytes at `off` out of `d` as an address.
fn read_pubkey(d: &[u8], off: usize) -> (r: Pubkey)
    requires
        off + 32 <= d@.len(),
    ensures
        r@ == d@.subrange(off as int, off + 32),
{
    let dlen: usize = d.len();
    assert(off + 32 <= dlen);
    let mut bytes = [0u8; 32];
    let mut i: usize = 0;
    while i < 32
        invariant
            0 <= i <= 32,
            off + 32 <= dlen && dlen == d@.len(),
            forall|j: int| 0 <= j < i ==> bytes@[j] == d@[off + j],
        decreases 32 - i,
    {
        bytes[i] = *slice_index_get(d, off + i);
        i += 1;
    }
    assert(bytes@ =~= d@.subrange(off as int, off + 32));
    Pubkey { bytes }
}

/// Appends an address's 32 bytes to `out`.
fn push_pubkey(out: &mut Vec<u8>, k: &Pubkey)
    ensures
        final(out)@ == old(out)@ + k@,
{
    let mut i: usize = 0;
    while i < 32
        invariant
            0 <= i <= 32,
            out@ == old(out)@ + k@.subrange(0, i as int),
        decreases 32 - i,
    {
        out.push(k.bytes[i]);
        assert(out@ =~= old(out)@ + k@.subrange(0, i + 1));
        i += 1;
    }
    assert(out@ =~= old(out)@ + k@);
}

/// Serializes a record into the payload of an initialized lockup account.
pub fn lockup_to_bytes(l: &Lockup) -> (r: Vec<u8>)
    ensures
        r@ == spec_lockup_bytes(l@),
{
    let mut out: Vec<u8> = Vec::new();
    let mut i: usize = 0;
    while i < 8
        invariant
            0 <= i <= 8,
            out@ == LOCKUP_DISCRIMINATOR@.subrange(0, i as int),
        decreases 8 - i,
    {
        out.push(LOCKUP_DISCRIMINATOR[i]);
        assert(out@ =~= LOCKUP_DISCRIMINATOR@.subrange(0, i + 1));
        i += 1;
    }
    assert(out@ =~= LOCKUP_DISCRIMINATOR@);
    let mut amount_bytes = u64_to_le_bytes(l.amount);
    out.append(&mut amount_bytes);
    push_pubkey(&mut out, &l.authority);
    let mut start_bytes = u64_to_le_bytes(l.lockup_start_timestamp);
    out.append(&mut start_bytes);
    let end_code: u64 = match l.lockup_end_timestamp {
        None => 0u64,
        Some(t) => t,
    };
    let mut end_bytes = u64_to_le_bytes(end_code);
    out.append(&mut end_bytes);
    push_pubkey(&mut out, &l.mint);
    assert(out@ =~= spec_lockup_bytes(l@));
    out
}

/// Reads the record out of a 96-byte lockup account payload.
pub fn lockup_from_bytes(d: &[u8]) -> (r: Lockup)
    requires
        d@.len() == LOCKUP_LEN,
    ensures
        r@ == spec_parse_lockup(d@),
        r@.wf(),
{
    let amount = u64_from_le_bytes(slice_subrange(d, 8, 16));
    let authority = read_pubkey(d, 16);
    let lockup_start_timestamp = u64_from_le_bytes(slice_subrange(d, 48, 56));
    let end_raw = u64_from_le_bytes(slice_subrange(d, 56, 64));
    let lockup_end_timestamp = if end_raw == 0 {
        None
    } else {
        Some(end_raw)
    };
    let mint = read_pubkey(d, 64);
    Lockup { amount, authority, lockup_start_timestamp, lockup_end_timestamp, mint }
}

/// Law: a well-formed record survives serialization unchanged.
pub proof fn lemma_lockup_roundtrip(l: LockupV)
    requires
        l.wf(),
    ensures
        spec_lockup_bytes(l).len() == LOCKUP_LEN,
        spec_parse_lockup(spec_lockup_bytes(l)) == l,
{
    vstd::bytes::lemma_auto_spec_u64_to_from_le_bytes();
    let d = spec_lockup_bytes(l);
    assert(d.subrange(8, 16) =~= spec_u64_to_le_bytes(l.amount));
    assert(d.subrange(16, 48) =~= l.authority);
    assert(d.subrange(48, 56) =~= spec_u64_to_le_bytes(l.lockup_start_timestamp));
    assert(d.subrange(56, 64) =~= spec_u64_to_le_bytes(spec_end_code(l.lockup_end_timestamp)));
    assert(d.subrange(64, 96) =~= l.mint);
}

/// Law: every 96-byte payload that carries the initialized discriminator is
/// the serialization of the record parsed from it.
pub proof fn lemma_lockup_bytes_roundtrip(d: Seq<u8>)
    requires
        d.len() == LOCKUP_LEN,
        d.subrange(0, 8) == LOCKUP_DISCRIMINATOR@,
    ensures
        spec_lockup_bytes(spec_parse_lockup(d)) == d,
{
    vstd::bytes::lemma_auto_spec_u64_to_from_le_bytes();
    assert(spec_lockup_bytes(spec_parse_lockup(d)) =~= d);
}

/// What `Pubkey::try_find_program_address` yields for the escrow-authority
/// seed under a program id: the escrow authority address and its bump seed,
/// or nothing in the statistically improbable case that no bump seed works.
pub uninterp spec fn escrow_authority_of(program_id: Seq<u8>) -> Option<(Seq<u8>, u8)>;

/// Derives the address of the escrow authority, with its bump seed.
///
/// Relies on solana_program's `Pubkey::try_find_program_address`, a
/// deterministic search over bump seeds for the fixed seed string
/// `escrow_authority`; it returns `None` only when no bump seed yields an
/// address off the ed25519 curve.
#[verifier::external_body]
pub fn get_escrow_authority_address_and_bump_seed(program_id: &Pubkey) -> (r: Option<
    (Pubkey, u8),
>)
    ensures
        r is Some <==> escrow_authority_of(program_id@) is Some,
        r matches Some(p) ==> escrow_authority_of(program_id@) == Some((p.0@, p.1)),
{
    let key = solana_program::pubkey::Pubkey::new_from_array(program_id.bytes);
    solana_program::pubkey::Pubkey::try_find_program_address(
        &["escrow_authority".as_bytes()],
        &key,
    ).map(|(address, bump)| (Pubkey { bytes: address.to_bytes() }, bump))
}

/// Derives the address of the escrow authority.
pub fn get_escrow_authority_address(program_id: &Pubkey) -> (r: Option<Pubkey>)
    ensures
        r is Some <==> escrow_authority_of(program_id@) is Some,
        r matches Some(a) ==> escrow_authority_of(program_id@) matches Some(p) && p.0 == a@,
{
    match get_escrow_authority_address_and_bump_seed(program_id) {
        Some((address, _)) => Some(address),
        None => None,
    }
}

/// What the associated-token-account derivation yields for a wallet, a mint
/// and a token program: the address of the wallet's associated token account.
pub uninterp spec fn associated_token_address_of(
    wallet: Seq<u8>,
    mint: Seq<u8>,
    token_program: Seq<u8>,
) -> Seq<u8>;

/// Derives the associated token account address for the given wallet, mint
/// and token program.
///
/// Relies on spl_associated_token_account's
/// `get_associated_token_address_with_program_id`, a deterministic
/// derivation from its three arguments; per its documentation it panics only
/// in the statistically improbable case that no bump seed yields a valid
/// derived address, and no input producing that case is known.
#[verifier::external_body]
pub(crate) fn get_associated_token_address(
    wallet: &Pubkey,
    mint: &Pubkey,
    token_program: &Pubkey,
) -> (r: Pubkey)
    ensures
        r@ == associated_token_address_of(wallet@, mint@, token_program@),
{
    let r = spl_associated_token_account::get_associated_token_address_with_program_id(
        &solana_program::pubkey::Pubkey::new_from_array(wallet.bytes),
        &solana_program::pubkey::Pubkey::new_from_array(mint.bytes),
        &solana_program::pubkey::Pubkey::new_from_array(token_program.bytes),
    );
    Pubkey { bytes: r.to_bytes() }
}

} // verus!
