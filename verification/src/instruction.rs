//! Instructions: the operations as callers ask for them, and how they are
//! read from bytes.

use crate::bytes::{le_u64, read_u64_le};
use crate::error::DecenseError;
use vstd::prelude::*;
use vstd::slice::slice_subrange;

verus! {

/// An operation as a caller asks for it.
#[derive(Clone, Copy, Debug, PartialEq, Eq, Structural)]
pub enum DecenseInstruction {
    /// Opcode 0: set up the platform record, or stamp its treasury again.
    InitializePlatform,
    /// Opcode 1: launch a token with a valuation and a supply.
    InitializeUser { market_valuation: u64, supply: u64 },
    /// Opcode 2: buy `quantity` tokens from the vault at `asked_price`.
    Exchange { asked_price: u64, quantity: u64 },
    /// Opcode 3: move `amount` tokens into the vault (action 0) or out of it
    /// (action 1), without a new price.
    SendReceiveToken { action: u64, amount: u64 },
}

/// The first operand: the number in bytes 0 to 8 of what follows the opcode.
pub open spec fn first_operand(rest: Seq<u8>) -> Result<u64, DecenseError> {
    if rest.len() < 8 {
        Err(DecenseError::InvalidNumber)
    } else {
        Ok(le_u64(rest.subrange(0, 8)))
    }
}

/// The second operand: the number in bytes 8 to 16 of what follows the opcode.
pub open spec fn second_operand(rest: Seq<u8>) -> Result<u64, DecenseError> {
    if rest.len() < 16 {
        Err(DecenseError::InvalidNumber)
    } else {
        Ok(le_u64(rest.subrange(8, 16)))
    }
}

/// The operation that a buffer spells: one opcode byte, then the operands.
/// Bytes after the last operand are not read.
pub open spec fn decode_instruction(data: Seq<u8>) -> Result<DecenseInstruction, DecenseError> {
    if data.len() == 0 {
        Err(DecenseError::InvalidInstruction)
    } else if data[0] == 0 {
        Ok(DecenseInstruction::InitializePlatform)
    } else if data[0] > 3 {
        Err(DecenseError::InvalidInstruction)
    } else {
        let rest = data.subrange(1, data.len() as int);
        match (first_operand(rest), second_operand(rest)) {
            (Ok(first), Ok(second)) => Ok(
                if data[0] == 1 {
                    DecenseInstruction::InitializeUser { market_valuation: first, supply: second }
                } else if data[0] == 2 {
                    DecenseInstruction::Exchange { asked_price: first, quantity: second }
                } else {
                    DecenseInstruction::SendReceiveToken { action: first, amount: second }
                },
            ),
            _ => Err(DecenseError::InvalidNumber),
        }
    }
}

impl DecenseInstruction {
    /// Reads the first operand of an instruction.
    pub fn get_first_u64(rest: &[u8]) -> (amount: Result<u64, DecenseError>)
        ensures
            amount == first_operand(rest@),
    {
        if rest.len() < 8 {
            return Err(DecenseError::InvalidNumber);
        }
        Ok(read_u64_le(rest, 0))
    }

    /// Reads the second operand of an instruction.
    pub fn get_second_u64(rest: &[u8]) -> (amount: Result<u64, DecenseError>)
        ensures
            amount == second_operand(rest@),
    {
        if rest.len() < 16 {
            return Err(DecenseError::InvalidNumber);
        }
        Ok(read_u64_le(rest, 8))
    }

    /// Parses an instruction buffer.
    pub fn unpack_instruction(instruction_data: &[u8]) -> (instruction: Result<
        DecenseInstruction,
        DecenseError,
    >)
        ensures
            instruction == decode_instruction(instruction_data@),
    {
        if instruction_data.len() == 0 {
            return Err(DecenseError::InvalidInstruction);
        }
        let opcode = instruction_data[0];
        if opcode == 0 {
            return Ok(DecenseInstruction::InitializePlatform);
        }
        if opcode > 3 {
            return Err(DecenseError::InvalidInstruction);
        }
        let rest = slice_subrange(instruction_data, 1, instruction_data.len());
        let first = DecenseInstruction::get_first_u64(rest)?;
        let second = DecenseInstruction::get_second_u64(rest)?;
        if opcode == 1 {
            Ok(DecenseInstruction::InitializeUser { market_valuation: first, supply: second })
        } else if opcode == 2 {
            Ok(DecenseInstruction::Exchange { asked_price: first, quantity: second })
        } else {
            Ok(DecenseInstruction::SendReceiveToken { action: first, amount: second })
        }
    }
}

/// An instruction that takes operands is never read from a buffer too
/// short to hold them: the attempt fails with `InvalidNumber`.
pub proof fn lemma_short_operands_are_rejected(data: Seq<u8>)
    requires
        1 <= data.len() < 17,
        1 <= data[0] <= 3,
    ensures
        decode_instruction(data) == Err::<DecenseInstruction, DecenseError>(
            DecenseError::InvalidNumber,
        ),
{
}

/// Reading an instruction succeeds exactly on a known opcode followed by
/// all of its operands.
pub proof fn lemma_decoding_succeeds_iff_complete(data: Seq<u8>)
    ensures
        decode_instruction(data) is Ok <==> data.len() >= 1 && (data[0] == 0 || (1 <= data[0] <= 3
            && data.len() >= 17)),
{
}

} // verus!
