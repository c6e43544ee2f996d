use vstd::prelude::*;

verus! {

/// Side of an order.
#[derive(Debug, Clone, Copy, PartialEq, Eq, Structural)]
pub enum Direction {
    Buy,
    Sell,
}

impl Direction {
    /// The stable textual form of the side.
    pub open spec fn name(self) -> Seq<char> {
        match self {
            Direction::Buy => seq!['B', 'u', 'y'],
            Direction::Sell => seq!['S', 'e', 'l', 'l'],
        }
    }

    pub fn to_str(&self) -> (r: &'static str)
        ensures
            r@ == self.name(),
    {
        match self {
            Direction::Buy => {
                proof {
                    reveal_strlit("Buy");
                }
                "Buy"
            },
            Direction::Sell => {
                proof {
                    reveal_strlit("Sell");
                }
                "Sell"
            },
        }
    }
}

} // verus!
