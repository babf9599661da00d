use vstd::prelude::*;

verus! {

/// Why an operation was refused. Every refusal aborts the whole operation.
#[derive(Clone, Copy, Debug, PartialEq, Eq, Structural)]
pub enum HakoError {
    InvalidOwner,
    InvalidAmount,
    InvalidReceiver,
    DecimalsTooHigh,
    MathOverflow,
    InvalidMint,
    InvalidVaultTokenAccount,
    /// The signer is not the administrator recorded in the vault configuration.
    Unauthorized,
}

impl HakoError {
    /// The human-readable message of the error.
    pub fn message(&self) -> (r: &'static str) {
        match self {
            HakoError::InvalidOwner => "Invalid owner",
            HakoError::InvalidAmount => "Invalid amount",
            HakoError::InvalidReceiver => "Invalid receiver",
            HakoError::DecimalsTooHigh => "Token decimals > 18",
            HakoError::MathOverflow => "Math overflow",
            HakoError::InvalidMint => "Invalid mint",
            HakoError::InvalidVaultTokenAccount => "Invalid vault token account",
            HakoError::Unauthorized => "Signer is not the vault owner",
        }
    }
}

} // verus!
