//! Instruction types and their wire format.
//!
//! An instruction travels as a single leading tag byte followed by a
//! fixed-width little-endian payload: tag `0` (`Lockup`) carries an eight-byte
//! amount, tags `1` (`Unlock`) and `2` (`Withdraw`) carry nothing.

use vstd::bytes::lemma_auto_spec_u64_to_from_le_bytes;
use vstd::bytes::spec_u64_from_le_bytes;
use vstd::bytes::spec_u64_to_le_bytes;
use vstd::bytes::u64_from_le_bytes;
use vstd::bytes::u64_to_le_bytes;
use vstd::prelude::*;
use vstd::slice::slice_index_get;
use vstd::slice::slice_subrange;

use crate::error::ProgramError;

verus! {

/// Operations supported by the lockup program.
#[derive(Clone, Copy, Debug, PartialEq, Eq, Structural)]
pub enum PaladinLockupInstruction {
    /// Lock up tokens in a lockup account.
    ///
    /// Accounts, in order: lockup authority (readable), token owner (signer),
    /// depositor token account (writable), lockup account (writable), escrow
    /// authority (readable), escrow token account (writable), token mint
    /// (readable), token program (readable).
    Lockup { amount: u64 },
    /// Start the cooldown of a lockup, enabling withdrawal once it elapses.
    ///
    /// Accounts, in order: lockup authority (signer), lockup account
    /// (writable).
    Unlock,
    /// Withdraw the tokens of an elapsed lockup and delete its record.
    ///
    /// Accounts, in order: lockup authority (signer), lamport destination
    /// (writable), token destination (writable), lockup account (writable),
    /// escrow authority (readable), escrow token account (writable), token
    /// mint (readable), token program (readable).
    Withdraw,
}

/// The bytes that encode an instruction.
pub open spec fn spec_pack(i: PaladinLockupInstruction) -> Seq<u8> {
    match i {
        PaladinLockupInstruction::Lockup { amount } => seq![0u8] + spec_u64_to_le_bytes(amount),
        PaladinLockupInstruction::Unlock => seq![1u8],
        PaladinLockupInstruction::Withdraw => seq![2u8],
    }
}

/// The instruction that a byte sequence encodes, or the error when it
/// encodes none: an unrecognized tag, or a payload whose length is not
/// exactly what the tag demands.
pub open spec fn spec_unpack(input: Seq<u8>) -> Result<PaladinLockupInstruction, ProgramError> {
    if input.len() == 9 && input[0] == 0u8 {
        Ok(
            PaladinLockupInstruction::Lockup {
                amount: spec_u64_from_le_bytes(input.subrange(1, 9)),
            },
        )
    } else if input.len() == 1 && input[0] == 1u8 {
        Ok(PaladinLockupInstruction::Unlock)
    } else if input.len() == 1 && input[0] == 2u8 {
        Ok(PaladinLockupInstruction::Withdraw)
    } else {
        Err(ProgramError::InvalidInstructionData)
    }
}

impl PaladinLockupInstruction {
    /// Packs an instruction into its wire bytes.
    pub fn pack(&self) -> (r: Vec<u8>)
        ensures
            r@ == spec_pack(*self),
    {
        match self {
            PaladinLockupInstruction::Lockup { amount } => {
                let mut buf: Vec<u8> = Vec::new();
                buf.push(0u8);
                let mut payload = u64_to_le_bytes(*amount);
                buf.append(&mut payload);
                assert(buf@ =~= spec_pack(*self));
                buf
            },
            PaladinLockupInstruction::Unlock => {
                let mut buf: Vec<u8> = Vec::new();
                buf.push(1u8);
                assert(buf@ =~= spec_pack(*self));
                buf
            },
            PaladinLockupInstruction::Withdraw => {
                let mut buf: Vec<u8> = Vec::new();
                buf.push(2u8);
                assert(buf@ =~= spec_pack(*self));
                buf
            },
        }
    }

    /// Unpacks wire bytes into the instruction they encode.
    pub fn unpack(input: &[u8]) -> (r: Result<Self, ProgramError>)
        ensures
            r == spec_unpack(input@),
    {
        if input.len() == 9 && *slice_index_get(input, 0) == 0u8 {
            let amount = u64_from_le_bytes(slice_subrange(input, 1, 9));
            Ok(PaladinLockupInstruction::Lockup { amount })
        } else if input.len() == 1 && *slice_index_get(input, 0) == 1u8 {
            Ok(PaladinLockupInstruction::Unlock)
        } else if input.len() == 1 && *slice_index_get(input, 0) == 2u8 {
            Ok(PaladinLockupInstruction::Withdraw)
        } else {
            Err(ProgramError::InvalidInstructionData)
        }
    }
}

/// Law: packing then unpacking yields the instruction unchanged, for every
/// operation and every payload value.
pub proof fn lemma_pack_unpack_roundtrip(i: PaladinLockupInstruction)
    ensures
        spec_unpack(spec_pack(i)) == Ok::<PaladinLockupInstruction, ProgramError>(i),
{
    lemma_auto_spec_u64_to_from_le_bytes();
    match i {
        PaladinLockupInstruction::Lockup { amount } => {
            assert(spec_pack(i).subrange(1, 9) =~= spec_u64_to_le_bytes(amount));
        },
        PaladinLockupInstruction::Unlock => {
        },
        PaladinLockupInstruction::Withdraw => {
        },
    }
}

/// Wire data of an `Unlock` instruction as the client SDK encodes it: the
/// single tag byte.
#[derive(Clone, Copy, Debug, PartialEq, Eq, Structural)]
pub struct UnlockInstructionData {
    pub discriminator: u8,
}

impl UnlockInstructionData {
    /// Builds the wire data of an `Unlock` instruction.
    pub fn new() -> (r: Self)
        ensures
            r.discriminator == 1u8,
    {
        UnlockInstructionData { discriminator: 1 }
    }
}

impl Default for UnlockInstructionData {
    fn default() -> (r: Self)
        ensures
            r.discriminator == 1u8,
    {
        UnlockInstructionData::new()
    }
}

} // verus!
