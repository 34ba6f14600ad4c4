//! What this program reads of a mango group.

use vstd::prelude::*;
use crate::state::{TokenInfo, TokenInfoView};

verus! {

/// The token list of a mango group as it stood when the group was loaded. A
/// slot whose mint is the zero address is unused; the last slot holds the
/// quote token.
#[derive(Clone, Copy, Debug, PartialEq, Eq)]
pub struct MangoGroupSnapshot {
    pub tokens: [TokenInfo; 16],
}

impl View for MangoGroupSnapshot {
    type V = Seq<TokenInfoView>;

    open spec fn view(&self) -> Seq<TokenInfoView> {
        Seq::new(16, |i: int| self.tokens@[i]@)
    }
}

/// The mango group could not be loaded: it is not owned by the mango program
/// that was named, or it does not hold a group.
#[derive(Clone, Copy, Debug, PartialEq, Eq, Structural)]
pub struct ReadFailure {}

} // verus!
