//! Number of scalars that make up one vertex attribute.

use vstd::prelude::*;

verus! {

/// How many scalars one vertex attribute has.
#[derive(Debug, Clone, Copy, PartialEq, Eq, Structural)]
pub enum AttributeComponentSize {
    One,
    Two,
    Three,
    Four,
}

impl AttributeComponentSize {
    /// The number of scalars, between one and four.
    pub open spec fn count(self) -> int {
        match self {
            AttributeComponentSize::One => 1,
            AttributeComponentSize::Two => 2,
            AttributeComponentSize::Three => 3,
            AttributeComponentSize::Four => 4,
        }
    }

    /// The number of scalars, between one and four.
    pub fn components(&self) -> (n: i32)
        ensures
            n == self.count(),
            1 <= n <= 4,
    {
        match self {
            AttributeComponentSize::One => 1,
            AttributeComponentSize::Two => 2,
            AttributeComponentSize::Three => 3,
            AttributeComponentSize::Four => 4,
        }
    }
}

} // verus!
