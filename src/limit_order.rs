use crate::codec::{
    bitcode_bytes, decode_record, encode_record, from_pairs, lemma_pairs_inverse, pairs_of,
    to_pairs, Record,
};
use crate::direction::Direction;
use crate::market_order::MarketOrder;
use crate::operation::Operation;
use crate::text::{append_decimal, decimal};
use crate::transaction::{append_transactions, transactions_text, Transaction};
use vstd::prelude::*;
use vstd::string::StringExecFns;

verus! {

/// A limit order in exactly one of its lifecycle states.
#[derive(Debug, Clone, PartialEq)]
pub enum LimitOrder {
    New(NewLimitOrder),
    Posted(PostedLimitOrder),
    Filled(FilledLimitOrder),
    Rejected(RejectedLimitOrder),
    Canceled(CanceledLimitOrder),
}

impl LimitOrder {
    pub fn new(direction: Direction, lots: u32, price: i64) -> (r: NewLimitOrder)
        ensures
            r.direction == direction,
            r.lots == lots,
            r.price == price,
    {
        NewLimitOrder { direction, lots, price }
    }

    /// How many of the lifecycle states `self` is in.
    pub open spec fn states_held(self) -> int {
        (if self is New { 1int } else { 0 }) + (if self is Posted { 1int } else { 0 }) + (if self
            is Filled { 1int } else { 0 }) + (if self is Rejected { 1int } else { 0 }) + (if self
            is Canceled { 1int } else { 0 })
    }

    /// One-line text of the order, naming its state and showing every field.
    pub open spec fn summary(self) -> Seq<char> {
        match self {
            LimitOrder::New(o) => limit_head("LimitOrder::New="@, o.direction, o.lots, o.price),
            LimitOrder::Posted(o) => limit_head(
                "LimitOrder::Posted="@,
                o.direction,
                o.lots,
                o.price,
            ) + " id="@ + o.broker_id@ + " t="@ + transactions_text(o.transactions@),
            LimitOrder::Filled(o) => limit_head(
                "LimitOrder::Filled="@,
                o.direction,
                o.lots,
                o.price,
            ) + " id="@ + o.broker_id@ + " t="@ + transactions_text(o.transactions@) + " "@
                + o.operation.summary(),
            LimitOrder::Rejected(o) => limit_head(
                "LimitOrder::Rejected="@,
                o.direction,
                o.lots,
                o.price,
            ) + " meta="@ + o.meta@,
            LimitOrder::Canceled(o) => limit_head(
                "LimitOrder::Canceled="@,
                o.direction,
                o.lots,
                o.price,
            ) + " id="@ + o.broker_id@ + " transactions="@ + transactions_text(o.transactions@),
        }
    }

    /// The text of the order.
    pub fn describe(&self) -> (r: String)
        ensures
            r@ == self.summary(),
    {
        let mut s = String::new();
        match self {
            LimitOrder::New(o) => {
                append_head(&mut s, "LimitOrder::New=", o.direction, o.lots, o.price);
            },
            LimitOrder::Posted(o) => {
                append_head(&mut s, "LimitOrder::Posted=", o.direction, o.lots, o.price);
                s.append(" id=");
                s.append(o.broker_id.as_str());
                s.append(" t=");
                append_transactions(&mut s, &o.transactions);
            },
            LimitOrder::Filled(o) => {
                append_head(&mut s, "LimitOrder::Filled=", o.direction, o.lots, o.price);
                s.append(" id=");
                s.append(o.broker_id.as_str());
                s.append(" t=");
                append_transactions(&mut s, &o.transactions);
                s.append(" ");
                o.operation.append_to(&mut s);
            },
            LimitOrder::Rejected(o) => {
                append_head(&mut s, "LimitOrder::Rejected=", o.direction, o.lots, o.price);
                s.append(" meta=");
                s.append(o.meta.as_str());
            },
            LimitOrder::Canceled(o) => {
                append_head(&mut s, "LimitOrder::Canceled=", o.direction, o.lots, o.price);
                s.append(" id=");
                s.append(o.broker_id.as_str());
                s.append(" transactions=");
                append_transactions(&mut s, &o.transactions);
            },
        }
        assert(s@ =~= self.summary());
        s
    }

    /// The bytes of the binary form of `self`.
    pub open spec fn encoded(self) -> Seq<u8> {
        match self {
            LimitOrder::New(o) => bitcode_bytes(
                0,
                o.direction == Direction::Buy,
                o.lots,
                o.price,
                Seq::empty(),
                Seq::empty(),
                (0i64, 0u64, 0i128, 0i64),
            ),
            LimitOrder::Posted(o) => bitcode_bytes(
                1,
                o.direction == Direction::Buy,
                o.lots,
                o.price,
                o.broker_id@,
                pairs_of(o.transactions@),
                (0i64, 0u64, 0i128, 0i64),
            ),
            LimitOrder::Filled(o) => bitcode_bytes(
                2,
                o.direction == Direction::Buy,
                o.lots,
                o.price,
                o.broker_id@,
                pairs_of(o.transactions@),
                (o.operation.ts_nanos, o.operation.quantity, o.operation.value, o.operation.commission),
            ),
            LimitOrder::Rejected(o) => bitcode_bytes(
                3,
                o.direction == Direction::Buy,
                o.lots,
                o.price,
                o.meta@,
                Seq::empty(),
                (0i64, 0u64, 0i128, 0i64),
            ),
            LimitOrder::Canceled(o) => bitcode_bytes(
                4,
                o.direction == Direction::Buy,
                o.lots,
                o.price,
                o.broker_id@,
                pairs_of(o.transactions@),
                (0i64, 0u64, 0i128, 0i64),
            ),
        }
    }

    /// `self` and `other` are in the same state and agree on every field.
    pub open spec fn same_as(self, other: LimitOrder) -> bool {
        match (self, other) {
            (LimitOrder::New(a), LimitOrder::New(b)) => a == b,
            (LimitOrder::Posted(a), LimitOrder::Posted(b)) => {
                &&& a.direction == b.direction
                &&& a.lots == b.lots
                &&& a.price == b.price
                &&& a.broker_id@ == b.broker_id@
                &&& a.transactions@ == b.transactions@
            },
            (LimitOrder::Filled(a), LimitOrder::Filled(b)) => {
                &&& a.direction == b.direction
                &&& a.lots == b.lots
                &&& a.price == b.price
                &&& a.broker_id@ == b.broker_id@
                &&& a.transactions@ == b.transactions@
                &&& a.operation == b.operation
            },
            (LimitOrder::Rejected(a), LimitOrder::Rejected(b)) => {
                &&& a.direction == b.direction
                &&& a.lots == b.lots
                &&& a.price == b.price
                &&& a.meta@ == b.meta@
            },
            (LimitOrder::Canceled(a), LimitOrder::Canceled(b)) => {
                &&& a.direction == b.direction
                &&& a.lots == b.lots
                &&& a.price == b.price
                &&& a.broker_id@ == b.broker_id@
                &&& a.transactions@ == b.transactions@
            },
            _ => false,
        }
    }

    /// `r` holds an order that is the same as `o`.
    pub open spec fn decoded_as(r: Option<LimitOrder>, o: LimitOrder) -> bool {
        match r {
            Some(d) => d.same_as(o),
            None => false,
        }
    }

    /// Encodes the order, whatever its state, to its compact binary form.
    pub fn to_bytes(&self) -> (r: Vec<u8>)
        ensures
            r@ == self.encoded(),
    {
        let record: Record = match self {
            LimitOrder::New(o) => (
                0,
                o.direction == Direction::Buy,
                o.lots,
                o.price,
                String::new(),
                Vec::new(),
                (0, 0, 0, 0),
            ),
            LimitOrder::Posted(o) => (
                1,
                o.direction == Direction::Buy,
                o.lots,
                o.price,
                o.broker_id.clone(),
                to_pairs(&o.transactions),
                (0, 0, 0, 0),
            ),
            LimitOrder::Filled(o) => (
                2,
                o.direction == Direction::Buy,
                o.lots,
                o.price,
                o.broker_id.clone(),
                to_pairs(&o.transactions),
                (o.operation.ts_nanos, o.operation.quantity, o.operation.value, o.operation.commission),
            ),
            LimitOrder::Rejected(o) => (
                3,
                o.direction == Direction::Buy,
                o.lots,
                o.price,
                o.meta.clone(),
                Vec::new(),
                (0, 0, 0, 0),
            ),
            LimitOrder::Canceled(o) => (
                4,
                o.direction == Direction::Buy,
                o.lots,
                o.price,
                o.broker_id.clone(),
                to_pairs(&o.transactions),
                (0, 0, 0, 0),
            ),
        };
        encode_record(&record)
    }

    /// Decodes an order from its binary form: the bytes of any order give
    /// back that order, in the same state and with every field equal; the
    /// bytes of a market order give `None`.
    pub fn from_bytes(bytes: &[u8]) -> (r: Option<LimitOrder>)
        ensures
            forall|o: LimitOrder| #[trigger] o.encoded() == bytes@ ==> LimitOrder::decoded_as(r, o),
            forall|o: MarketOrder| #[trigger] o.encoded() == bytes@ ==> r is None,
    {
        broadcast use lemma_pairs_inverse;

        match decode_record(bytes) {
            None => None,
            Some((tag, buy, lots, price, text, fills, op)) => {
                let direction = if buy {
                    Direction::Buy
                } else {
                    Direction::Sell
                };
                if tag == 0 {
                    Some(LimitOrder::New(NewLimitOrder { direction, lots, price }))
                } else if tag == 1 {
                    let transactions = from_pairs(&fills);
                    Some(
                        LimitOrder::Posted(
                            PostedLimitOrder { direction, lots, price, broker_id: text, transactions },
                        ),
                    )
                } else if tag == 2 {
                    let transactions = from_pairs(&fills);
                    let operation = Operation {
                        ts_nanos: op.0,
                        quantity: op.1,
                        value: op.2,
                        commission: op.3,
                    };
                    Some(
                        LimitOrder::Filled(
                            FilledLimitOrder {
                                direction,
                                lots,
                                price,
                                broker_id: text,
                                transactions,
                                operation,
                            },
                        ),
                    )
                } else if tag == 3 {
                    Some(LimitOrder::Rejected(RejectedLimitOrder {
                        direction,
                        lots,
                        price,
                        meta: text,
                    }))
                } else if tag == 4 {
                    let transactions = from_pairs(&fills);
                    Some(
                        LimitOrder::Canceled(
                            CanceledLimitOrder {
                                direction,
                                lots,
                                price,
                                broker_id: text,
                                transactions,
                            },
                        ),
                    )
                } else {
                    None
                }
            },
        }
    }
}

/// Start of an order's text: state, side, lots and price.
pub open spec fn limit_head(state: Seq<char>, direction: Direction, lots: u32, price: i64) -> Seq<
    char,
> {
    state + direction.name() + " "@ + decimal(lots as int) + "x"@ + decimal(price as int)
}

fn append_head(s: &mut String, state: &str, direction: Direction, lots: u32, price: i64)
    ensures
        final(s)@ == old(s)@ + limit_head(state@, direction, lots, price),
{
    s.append(state);
    s.append(direction.to_str());
    s.append(" ");
    append_decimal(s, lots as i128);
    s.append("x");
    append_decimal(s, price as i128);
    assert(final(s)@ =~= old(s)@ + limit_head(state@, direction, lots, price));
}

/// Every limit order is in exactly one lifecycle state.
pub proof fn lemma_limit_order_one_state(o: LimitOrder)
    ensures
        o.states_held() == 1,
{
}

/// A limit order that is not placed yet.
#[derive(Debug, Clone, PartialEq)]
pub struct NewLimitOrder {
    pub direction: Direction,
    pub lots: u32,
    pub price: i64,
}

impl NewLimitOrder {
    /// The broker accepted the order under `broker_id`.
    pub fn post(self, broker_id: &str) -> (r: PostedLimitOrder)
        ensures
            r.direction == self.direction,
            r.lots == self.lots,
            r.price == self.price,
            r.broker_id@ == broker_id@,
            r.transactions@ == Seq::<Transaction>::empty(),
    {
        PostedLimitOrder {
            direction: self.direction,
            lots: self.lots,
            price: self.price,
            broker_id: broker_id.to_string(),
            transactions: Vec::new(),
        }
    }

    /// The order was never placed, for the reason `meta`.
    pub fn reject(self, meta: &str) -> (r: RejectedLimitOrder)
        ensures
            r.direction == self.direction,
            r.lots == self.lots,
            r.price == self.price,
            r.meta@ == meta@,
    {
        RejectedLimitOrder {
            direction: self.direction,
            lots: self.lots,
            price: self.price,
            meta: meta.to_string(),
        }
    }
}

/// A limit order placed with the broker, collecting its executions.
#[derive(Debug, Clone, PartialEq)]
pub struct PostedLimitOrder {
    pub direction: Direction,
    pub lots: u32,
    pub price: i64,
    pub broker_id: String,
    pub transactions: Vec<Transaction>,
}

impl PostedLimitOrder {
    /// Records one more execution, after those already recorded.
    pub fn add_transaction(&mut self, t: Transaction)
        ensures
            final(self).direction == old(self).direction,
            final(self).lots == old(self).lots,
            final(self).price == old(self).price,
            final(self).broker_id == old(self).broker_id,
            final(self).transactions@ == old(self).transactions@.push(t),
    {
        self.transactions.push(t);
    }

    /// Settles the order: its executions are aggregated into one operation.
    pub fn fill(self, ts_nanos: i64, commission: i64) -> (r: FilledLimitOrder)
        requires
            self.transactions@.len() <= u32::MAX,
        ensures
            r.direction == self.direction,
            r.lots == self.lots,
            r.price == self.price,
            r.broker_id == self.broker_id,
            r.transactions@ == self.transactions@,
            r.operation.aggregates(ts_nanos, self.transactions@, commission),
    {
        let operation = Operation::from(ts_nanos, &self.transactions, commission);
        FilledLimitOrder {
            direction: self.direction,
            lots: self.lots,
            price: self.price,
            broker_id: self.broker_id,
            transactions: self.transactions,
            operation,
        }
    }

    /// Withdraws the order; the executions recorded so far are kept.
    pub fn cancel(self) -> (r: CanceledLimitOrder)
        ensures
            r.direction == self.direction,
            r.lots == self.lots,
            r.price == self.price,
            r.broker_id == self.broker_id,
            r.transactions@ == self.transactions@,
    {
        CanceledLimitOrder {
            direction: self.direction,
            lots: self.lots,
            price: self.price,
            broker_id: self.broker_id,
            transactions: self.transactions,
        }
    }
}

/// A settled limit order.
#[derive(Debug, Clone, PartialEq)]
pub struct FilledLimitOrder {
    pub direction: Direction,
    pub lots: u32,
    pub price: i64,
    pub broker_id: String,
    pub transactions: Vec<Transaction>,
    pub operation: Operation,
}

/// A limit order that was never placed.
#[derive(Debug, Clone, PartialEq)]
pub struct RejectedLimitOrder {
    pub direction: Direction,
    pub lots: u32,
    pub price: i64,
    pub meta: String,
}

/// A limit order withdrawn after it was placed.
#[derive(Debug, Clone, PartialEq)]
pub struct CanceledLimitOrder {
    pub direction: Direction,
    pub lots: u32,
    pub price: i64,
    pub broker_id: String,
    pub transactions: Vec<Transaction>,
}

} // verus!
