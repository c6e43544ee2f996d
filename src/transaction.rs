use crate::text::{append_decimal, decimal};
use vstd::prelude::*;
use vstd::string::StringExecFns;

verus! {

/// One execution of (part of) an order: a lot count at a price.
#[derive(Debug, Clone, Copy, PartialEq, Eq, Structural)]
pub struct Transaction {
    pub quantity: u32,
    pub price: i64,
}

impl Transaction {
    pub fn new(quantity: u32, price: i64) -> (r: Transaction)
        ensures
            r.quantity == quantity,
            r.price == price,
    {
        Transaction { quantity, price }
    }

    /// One-line text of the execution: `<quantity>x<price>`.
    pub open spec fn summary(self) -> Seq<char> {
        decimal(self.quantity as int) + "x"@ + decimal(self.price as int)
    }

    /// Appends the text of `self` to `s`.
    pub fn append_to(&self, s: &mut String)
        ensures
            final(s)@ == old(s)@ + self.summary(),
    {
        append_decimal(s, self.quantity as i128);
        s.append("x");
        append_decimal(s, self.price as i128);
        assert(final(s)@ =~= old(s)@ + self.summary());
    }
}

/// The executions' texts separated by `, `.
pub open spec fn items_text(ts: Seq<Transaction>) -> Seq<char>
    decreases ts.len(),
{
    if ts.len() == 0 {
        Seq::empty()
    } else if ts.len() == 1 {
        ts[0].summary()
    } else {
        items_text(ts.drop_last()) + ", "@ + ts.last().summary()
    }
}

/// Text of a list of executions: `[` the items `]`.
pub open spec fn transactions_text(ts: Seq<Transaction>) -> Seq<char> {
    "["@ + items_text(ts) + "]"@
}

/// Appends the text of the list `ts` to `s`.
pub fn append_transactions(s: &mut String, ts: &Vec<Transaction>)
    ensures
        final(s)@ == old(s)@ + transactions_text(ts@),
{
    s.append("[");
    let ghost start = s@;
    let mut i: usize = 0;
    while i < ts.len()
        invariant
            i <= ts@.len(),
            start == old(s)@ + "["@,
            s@ == start + items_text(ts@.take(i as int)),
        decreases ts@.len() - i,
    {
        let ghost before = s@;
        if i > 0 {
            s.append(", ");
        }
        ts[i].append_to(s);
        proof {
            let t = ts@.take(i as int + 1);
            assert(t.drop_last() =~= ts@.take(i as int));
            assert(t.last() == ts@[i as int]);
            if i == 0 {
                assert(items_text(ts@.take(0)) =~= Seq::<char>::empty());
                assert(s@ =~= start + items_text(t));
            } else {
                assert(s@ =~= start + items_text(t));
            }
        }
        i = i + 1;
    }
    assert(ts@.take(i as int) =~= ts@);
    s.append("]");
    assert(final(s)@ =~= old(s)@ + transactions_text(ts@));
}

} // verus!
