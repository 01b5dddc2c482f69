use vstd::prelude::*;

verus! {

/// A row of the chain table.
pub struct Model {
    pub id: i32,
    pub title: String,
    /// The chain's parameters, as JSON text.
    pub params: String,
}

/// The tables that a chain owns rows of.
#[derive(Clone, Copy, Debug, PartialEq, Eq, Structural)]
pub enum Relation {
    Address,
    Transaction,
}

} // verus!
