//! Base types shared by the message schemas.

use vstd::prelude::*;

verus! {

/// An amount of a token: the denomination name and the amount written as a
/// decimal string.
#[derive(Debug, Clone, PartialEq, Eq)]
pub struct Coin {
    pub denom: String,
    pub amount: String,
}

impl Coin {
    /// The two fields of a coin in storage order.
    pub open spec fn fields(&self) -> Seq<Seq<char>> {
        seq![self.denom@, self.amount@]
    }
}

} // verus!
