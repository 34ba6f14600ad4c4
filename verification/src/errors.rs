//! The ways in which initialising a pickle group can fail.

use vstd::prelude::*;

verus! {

/// Why a pickle group was not initialised.
#[derive(Clone, Copy, Debug, PartialEq, Eq, Structural)]
pub enum PickleError {
    /// The mango group could not be loaded for the given mango program.
    MangoError,
    /// The number of pool accounts differs from the number of mirrored tokens.
    TokenPoolsMissing,
    /// A pool account holds another token than the one it is supplied for.
    InvalidMint,
    /// The authority account is not the address derived for the group.
    AuthorityMismatch,
}

impl PickleError {
    /// The message shown to a caller for this error.
    pub fn message(&self) -> (r: &'static str)
        ensures
            r@ == self.message_text(),
    {
        match self {
            PickleError::MangoError => "Error while calling mango functions",
            PickleError::TokenPoolsMissing => "Please provide remaining accounts corresponding to token pools equal to number of mints in mango",
            PickleError::InvalidMint => "Invalid mint (must currespond to mango token mint)",
            PickleError::AuthorityMismatch => "Authority must be the address derived for the pickle group",
        }
    }

    /// The text of [`PickleError::message`].
    pub open spec fn message_text(&self) -> Seq<char> {
        match self {
            PickleError::MangoError => "Error while calling mango functions"@,
            PickleError::TokenPoolsMissing => "Please provide remaining accounts corresponding to token pools equal to number of mints in mango"@,
            PickleError::InvalidMint => "Invalid mint (must currespond to mango token mint)"@,
            PickleError::AuthorityMismatch => "Authority must be the address derived for the pickle group"@,
        }
    }
}

} // verus!
