use crate::text::{append_decimal, decimal};
use crate::transaction::Transaction;
use vstd::prelude::*;
use vstd::string::StringExecFns;

verus! {

/// Largest lot count of one transaction.
pub open spec fn max_quantity() -> int {
    0xFFFF_FFFF as int
}

/// Largest absolute notional value of one transaction.
pub open spec fn max_notional() -> int {
    (0xFFFF_FFFF * 0x8000_0000_0000_0000) as int
}

/// Sum of the lot counts of `ts`.
pub open spec fn total_quantity(ts: Seq<Transaction>) -> int
    decreases ts.len(),
{
    if ts.len() == 0 {
        0
    } else {
        total_quantity(ts.drop_last()) + ts.last().quantity
    }
}

/// Notional value of `ts`: the sum of quantity times price.
pub open spec fn total_value(ts: Seq<Transaction>) -> int
    decreases ts.len(),
{
    if ts.len() == 0 {
        0
    } else {
        total_value(ts.drop_last()) + ts.last().quantity * ts.last().price
    }
}

/// The settled result of a filled order.
#[derive(Debug, Clone, Copy, PartialEq, Eq, Structural)]
pub struct Operation {
    /// Settlement time, nanoseconds since the Unix epoch.
    pub ts_nanos: i64,
    pub quantity: u64,
    pub value: i128,
    pub commission: i64,
}

impl Operation {
    /// `self` is the aggregate of `ts` settled at `ts_nanos` with `commission`.
    pub open spec fn aggregates(self, ts_nanos: i64, ts: Seq<Transaction>, commission: i64) -> bool {
        &&& self.ts_nanos == ts_nanos
        &&& self.quantity == total_quantity(ts)
        &&& self.value == total_value(ts)
        &&& self.commission == commission
    }

    /// One-line text: `Operation=<ts_nanos> <quantity>=<value> c=<commission>`.
    pub open spec fn summary(self) -> Seq<char> {
        "Operation="@ + decimal(self.ts_nanos as int) + " "@ + decimal(self.quantity as int) + "="@
            + decimal(self.value as int) + " c="@ + decimal(self.commission as int)
    }

    /// Appends the text of `self` to `s`.
    pub fn append_to(&self, s: &mut String)
        ensures
            final(s)@ == old(s)@ + self.summary(),
    {
        s.append("Operation=");
        append_decimal(s, self.ts_nanos as i128);
        s.append(" ");
        append_decimal(s, self.quantity as i128);
        s.append("=");
        append_decimal(s, self.value);
        s.append(" c=");
        append_decimal(s, self.commission as i128);
        assert(final(s)@ =~= old(s)@ + self.summary());
    }

    /// The text of `self`.
    pub fn describe(&self) -> (r: String)
        ensures
            r@ == self.summary(),
    {
        let mut s = String::new();
        self.append_to(&mut s);
        assert(s@ =~= self.summary());
        s
    }

    /// Aggregates `transactions`, taken in order, into one operation.
    pub fn from(ts_nanos: i64, transactions: &Vec<Transaction>, commission: i64) -> (r: Operation)
        requires
            transactions@.len() <= u32::MAX,
        ensures
            r.aggregates(ts_nanos, transactions@, commission),
    {
        let mut quantity: u64 = 0;
        let mut value: i128 = 0;
        let mut i: usize = 0;
        while i < transactions.len()
            invariant
                i <= transactions@.len() <= u32::MAX,
                quantity == total_quantity(transactions@.take(i as int)),
                value == total_value(transactions@.take(i as int)),
            decreases transactions@.len() - i,
        {
            let t = transactions[i];
            proof {
                let s = transactions@.take(i as int + 1);
                assert(s.drop_last() =~= transactions@.take(i as int));
                assert(s.last() == t);
                lemma_totals_fit(s);
                lemma_notional_bounded(t);
            }
            quantity = quantity + t.quantity as u64;
            value = value + (t.quantity as i128) * (t.price as i128);
            i = i + 1;
        }
        assert(transactions@.take(i as int) =~= transactions@);
        Operation { ts_nanos, quantity, value, commission }
    }
}

/// The notional value of one transaction is bounded.
pub proof fn lemma_notional_bounded(t: Transaction)
    ensures
        -max_notional() <= t.quantity * t.price <= max_notional(),
{
    let q = t.quantity as int;
    let p = t.price as int;
    assert(-max_notional() <= q * p <= max_notional()) by (nonlinear_arith)
        requires
            0 <= q <= 0xFFFF_FFFF,
            -0x8000_0000_0000_0000 <= p <= 0x7FFF_FFFF_FFFF_FFFF,
            max_notional() == 0xFFFF_FFFF * 0x8000_0000_0000_0000,
    ;
}

/// The totals grow by at most one transaction's bound per transaction.
pub proof fn lemma_totals_bounded(ts: Seq<Transaction>)
    ensures
        0 <= total_quantity(ts) <= ts.len() * max_quantity(),
        -(ts.len() * max_notional()) <= total_value(ts) <= ts.len() * max_notional(),
    decreases ts.len(),
{
    if ts.len() > 0 {
        lemma_totals_bounded(ts.drop_last());
        lemma_notional_bounded(ts.last());
        let n = ts.len() as int;
        assert(n * max_notional() == (n - 1) * max_notional() + max_notional())
            by (nonlinear_arith);
        assert(n * max_quantity() == (n - 1) * max_quantity() + max_quantity())
            by (nonlinear_arith);
    }
}

/// With at most `u32::MAX` transactions the totals fit an `u64` and an `i128`.
pub proof fn lemma_totals_fit(ts: Seq<Transaction>)
    requires
        ts.len() <= u32::MAX,
    ensures
        0 <= total_quantity(ts) <= u64::MAX,
        i128::MIN <= total_value(ts) <= i128::MAX,
{
    lemma_totals_bounded(ts);
    let n = ts.len() as int;
    assert(n * max_quantity() <= u64::MAX) by (nonlinear_arith)
        requires
            0 <= n <= 0xFFFF_FFFF,
            max_quantity() == 0xFFFF_FFFF,
    ;
    assert(n * max_notional() <= i128::MAX) by (nonlinear_arith)
        requires
            0 <= n <= 0xFFFF_FFFF,
            max_notional() == 0xFFFF_FFFF * 0x8000_0000_0000_0000,
    ;
}

/// Taking one transaction out of `ts` takes its share out of both totals.
pub proof fn lemma_totals_remove(ts: Seq<Transaction>, i: int)
    requires
        0 <= i < ts.len(),
    ensures
        total_quantity(ts) == total_quantity(ts.remove(i)) + ts[i].quantity,
        total_value(ts) == total_value(ts.remove(i)) + ts[i].quantity * ts[i].price,
    decreases ts.len(),
{
    if i == ts.len() - 1 {
        assert(ts.remove(i) =~= ts.drop_last());
    } else {
        lemma_totals_remove(ts.drop_last(), i);
        assert(ts.drop_last().remove(i) =~= ts.remove(i).drop_last());
        assert(ts.remove(i).last() == ts.last());
    }
}

/// The order in which executions arrive does not matter: two lists holding
/// the same transactions, each as often, have the same total quantity and the
/// same notional value, so filling after either gives the same operation.
pub proof fn lemma_totals_permutation(a: Seq<Transaction>, b: Seq<Transaction>)
    requires
        a.to_multiset() == b.to_multiset(),
    ensures
        total_quantity(a) == total_quantity(b),
        total_value(a) == total_value(b),
    decreases a.len(),
{
    a.to_multiset_ensures();
    b.to_multiset_ensures();
    if a.len() == 0 {
        assert(b.len() == 0);
        assert(b =~= a);
    } else {
        let x = a.last();
        let la = (a.len() - 1) as int;
        assert(a.contains(x)) by {
            assert(a[la] == x);
        }
        assert(a.to_multiset().count(x) > 0);
        assert(b.to_multiset().count(x) > 0);
        assert(b.contains(x));
        let i = choose|i: int| 0 <= i < b.len() && b[i] == x;
        let ra = a.remove(la);
        let rb = b.remove(i);
        assert(ra.to_multiset() == rb.to_multiset());
        lemma_totals_permutation(ra, rb);
        lemma_totals_remove(a, la);
        lemma_totals_remove(b, i);
    }
}

/// Filling after the same executions, recorded in any order, settles the same
/// operation.
pub proof fn lemma_fill_permutation(
    a: Seq<Transaction>,
    b: Seq<Transaction>,
    ts_nanos: i64,
    commission: i64,
    x: Operation,
    y: Operation,
)
    requires
        a.to_multiset() == b.to_multiset(),
        x.aggregates(ts_nanos, a, commission),
        y.aggregates(ts_nanos, b, commission),
    ensures
        x == y,
{
    lemma_totals_permutation(a, b);
}

} // verus!
