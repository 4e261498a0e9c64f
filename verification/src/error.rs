//! The errors of the exchange.

use vstd::prelude::*;

verus! {

/// Every way an operation of the exchange can fail.
///
/// A failure is terminal: the operation that met it changes nothing.
#[derive(Clone, Copy, Debug, PartialEq, Eq, Structural)]
pub enum DecenseError {
    /// The instruction buffer is empty, the opcode is unknown, or a transfer
    /// names an action other than deposit and withdraw.
    InvalidInstruction,
    /// An operand of the instruction is cut short.
    InvalidNumber,
    /// The vault holds fewer tokens than the trade asks for.
    InsufficientTokenBalance,
    /// A checked addition, subtraction, multiplication or division failed.
    MathError,
    /// The custody address handed in is not the one derived for the seller.
    InvalidPDA,
    /// A record has the wrong length or a malformed tag byte.
    InvalidAccountData,
    /// A record that must be populated is not.
    UninitializedAccount,
    /// The operation was given fewer accounts than it names.
    NotEnoughAccountKeys,
    /// The treasury handed in is not the one the platform record holds.
    PlatformMismatch,
}

/// A result with its success value replaced by that value's view.
pub open spec fn viewed<T: View>(r: Result<T, DecenseError>) -> Result<T::V, DecenseError> {
    match r {
        Ok(value) => Ok(value@),
        Err(e) => Err(e),
    }
}

/// The custom code under which an error reaches the runtime, for the errors
/// that are this program's own; `None` for those the runtime already names.
pub open spec fn custom_code_of(e: DecenseError) -> Option<u32> {
    match e {
        DecenseError::InvalidInstruction => Some(0u32),
        DecenseError::InvalidNumber => Some(1u32),
        DecenseError::InsufficientTokenBalance => Some(2u32),
        DecenseError::MathError => Some(3u32),
        DecenseError::InvalidPDA => Some(4u32),
        DecenseError::PlatformMismatch => Some(22u32),
        DecenseError::InvalidAccountData => None,
        DecenseError::UninitializedAccount => None,
        DecenseError::NotEnoughAccountKeys => None,
    }
}

impl DecenseError {
    /// The custom program-error code of this error, if it has one.
    pub fn custom_code(&self) -> (code: Option<u32>)
        ensures
            code == custom_code_of(*self),
    {
        match self {
            DecenseError::InvalidInstruction => Some(0),
            DecenseError::InvalidNumber => Some(1),
            DecenseError::InsufficientTokenBalance => Some(2),
            DecenseError::MathError => Some(3),
            DecenseError::InvalidPDA => Some(4),
            DecenseError::PlatformMismatch => Some(22),
            DecenseError::InvalidAccountData => None,
            DecenseError::UninitializedAccount => None,
            DecenseError::NotEnoughAccountKeys => None,
        }
    }
}

} // verus!
