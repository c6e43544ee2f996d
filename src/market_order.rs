use crate::codec::{
    bitcode_bytes, decode_record, encode_record, from_pairs, lemma_pairs_inverse, pairs_of,
    to_pairs, Record,
};
use crate::direction::Direction;
use crate::limit_order::LimitOrder;
use crate::operation::Operation;
use crate::text::{append_decimal, decimal};
use crate::transaction::{append_transactions, transactions_text, Transaction};
use vstd::prelude::*;
use vstd::string::StringExecFns;

verus! {

/// A market order in exactly one of its lifecycle states.
#[derive(Debug, Clone, PartialEq)]
pub enum MarketOrder {
    New(NewMarketOrder),
    Posted(PostedMarketOrder),
    Filled(FilledMarketOrder),
    Rejected(RejectedMarketOrder),
}

impl MarketOrder {
    pub fn new(direction: Direction, lots: u32) -> (r: NewMarketOrder)
        ensures
            r.direction == direction,
            r.lots == lots,
    {
        NewMarketOrder { direction, lots }
    }

    /// How many of the lifecycle states `self` is in.
    pub open spec fn states_held(self) -> int {
        (if self is New { 1int } else { 0 }) + (if self is Posted { 1int } else { 0 }) + (if self
            is Filled { 1int } else { 0 }) + (if self is Rejected { 1int } else { 0 })
    }

    /// One-line text of the order, naming its state and showing every field.
    pub open spec fn summary(self) -> Seq<char> {
        match self {
            MarketOrder::New(o) => market_head("MarketOrder::New="@, o.direction, o.lots),
            MarketOrder::Posted(o) => market_head(
                "MarketOrder::Posted="@,
                o.direction,
                o.lots,
            ) + " id="@ + o.broker_id@ + " t="@ + transactions_text(o.transactions@),
            MarketOrder::Filled(o) => market_head(
                "MarketOrder::Filled="@,
                o.direction,
                o.lots,
            ) + " id="@ + o.broker_id@ + " t="@ + transactions_text(o.transactions@) + " "@
                + o.operation.summary(),
            MarketOrder::Rejected(o) => market_head(
                "MarketOrder::Rejected="@,
                o.direction,
                o.lots,
            ) + " meta="@ + o.meta@,
        }
    }

    /// The text of the order.
    pub fn describe(&self) -> (r: String)
        ensures
            r@ == self.summary(),
    {
        let mut s = String::new();
        match self {
            MarketOrder::New(o) => {
                append_head(&mut s, "MarketOrder::New=", o.direction, o.lots);
            },
            MarketOrder::Posted(o) => {
                append_head(&mut s, "MarketOrder::Posted=", o.direction, o.lots);
                s.append(" id=");
                s.append(o.broker_id.as_str());
                s.append(" t=");
                append_transactions(&mut s, &o.transactions);
            },
            MarketOrder::Filled(o) => {
                append_head(&mut s, "MarketOrder::Filled=", o.direction, o.lots);
                s.append(" id=");
                s.append(o.broker_id.as_str());
                s.append(" t=");
                append_transactions(&mut s, &o.transactions);
                s.append(" ");
                o.operation.append_to(&mut s);
            },
            MarketOrder::Rejected(o) => {
                append_head(&mut s, "MarketOrder::Rejected=", o.direction, o.lots);
                s.append(" meta=");
                s.append(o.meta.as_str());
            },
        }
        assert(s@ =~= self.summary());
        s
    }

    /// The bytes of the binary form of `self`.
    pub open spec fn encoded(self) -> Seq<u8> {
        match self {
            MarketOrder::New(o) => bitcode_bytes(
                5,
                o.direction == Direction::Buy,
                o.lots,
                0,
                Seq::empty(),
                Seq::empty(),
                (0i64, 0u64, 0i128, 0i64),
            ),
            MarketOrder::Posted(o) => bitcode_bytes(
                6,
                o.direction == Direction::Buy,
                o.lots,
                0,
                o.broker_id@,
                pairs_of(o.transactions@),
                (0i64, 0u64, 0i128, 0i64),
            ),
            MarketOrder::Filled(o) => bitcode_bytes(
                7,
                o.direction == Direction::Buy,
                o.lots,
                0,
                o.broker_id@,
                pairs_of(o.transactions@),
                (o.operation.ts_nanos, o.operation.quantity, o.operation.value, o.operation.commission),
            ),
            MarketOrder::Rejected(o) => bitcode_bytes(
                8,
                o.direction == Direction::Buy,
                o.lots,
                0,
                o.meta@,
                Seq::empty(),
                (0i64, 0u64, 0i128, 0i64),
            ),
        }
    }

    /// `self` and `other` are in the same state and agree on every field.
    pub open spec fn same_as(self, other: MarketOrder) -> bool {
        match (self, other) {
            (MarketOrder::New(a), MarketOrder::New(b)) => a == b,
            (MarketOrder::Posted(a), MarketOrder::Posted(b)) => {
                &&& a.direction == b.direction
                &&& a.lots == b.lots
                &&& a.broker_id@ == b.broker_id@
                &&& a.transactions@ == b.transactions@
            },
            (MarketOrder::Filled(a), MarketOrder::Filled(b)) => {
                &&& a.direction == b.direction
                &&& a.lots == b.lots
                &&& a.broker_id@ == b.broker_id@
                &&& a.transactions@ == b.transactions@
                &&& a.operation == b.operation
            },
            (MarketOrder::Rejected(a), MarketOrder::Rejected(b)) => {
                &&& a.direction == b.direction
                &&& a.lots == b.lots
                &&& a.meta@ == b.meta@
            },
            _ => false,
        }
    }

    /// `r` holds an order that is the same as `o`.
    pub open spec fn decoded_as(r: Option<MarketOrder>, o: MarketOrder) -> bool {
        match r {
            Some(d) => d.same_as(o),
            None => false,
        }
    }

    /// Encodes the order, whatever its state, to its compact binary form.
    pub fn to_bytes(&self) -> (r: Vec<u8>)
        ensures
            r@ == self.encoded(),
    {
        let record: Record = match self {
            MarketOrder::New(o) => (
                5,
                o.direction == Direction::Buy,
                o.lots,
                0,
                String::new(),
                Vec::new(),
                (0, 0, 0, 0),
            ),
            MarketOrder::Posted(o) => (
                6,
                o.direction == Direction::Buy,
                o.lots,
                0,
                o.broker_id.clone(),
                to_pairs(&o.transactions),
                (0, 0, 0, 0),
            ),
            MarketOrder::Filled(o) => (
                7,
                o.direction == Direction::Buy,
                o.lots,
                0,
                o.broker_id.clone(),
                to_pairs(&o.transactions),
                (o.operation.ts_nanos, o.operation.quantity, o.operation.value, o.operation.commission),
            ),
            MarketOrder::Rejected(o) => (
                8,
                o.direction == Direction::Buy,
                o.lots,
                0,
                o.meta.clone(),
                Vec::new(),
                (0, 0, 0, 0),
            ),
        };
        encode_record(&record)
    }

    /// Decodes an order from its binary form: the bytes of any order give
    /// back that order, in the same state and with every field equal; the
    /// bytes of a limit order give `None`.
    pub fn from_bytes(bytes: &[u8]) -> (r: Option<MarketOrder>)
        ensures
            forall|o: MarketOrder| #[trigger] o.encoded() == bytes@ ==> MarketOrder::decoded_as(r, o),
            forall|o: LimitOrder| #[trigger] o.encoded() == bytes@ ==> r is None,
    {
        broadcast use lemma_pairs_inverse;

        match decode_record(bytes) {
            None => None,
            Some((tag, buy, lots, _price, text, fills, op)) => {
                let direction = if buy {
                    Direction::Buy
                } else {
                    Direction::Sell
                };
                if tag == 5 {
                    Some(MarketOrder::New(NewMarketOrder { direction, lots }))
                } else if tag == 6 {
                    let transactions = from_pairs(&fills);
                    Some(
                        MarketOrder::Posted(
                            PostedMarketOrder { direction, lots, broker_id: text, transactions },
                        ),
                    )
                } else if tag == 7 {
                    let transactions = from_pairs(&fills);
                    let operation = Operation {
                        ts_nanos: op.0,
                        quantity: op.1,
                        value: op.2,
                        commission: op.3,
                    };
                    Some(
                        MarketOrder::Filled(
                            FilledMarketOrder {
                                direction,
                                lots,
                                broker_id: text,
                                transactions,
                                operation,
                            },
                        ),
                    )
                } else if tag == 8 {
                    Some(MarketOrder::Rejected(RejectedMarketOrder { direction, lots, meta: text }))
                } else {
                    None
                }
            },
        }
    }
}

/// Start of an order's text: state, side and lots.
pub open spec fn market_head(state: Seq<char>, direction: Direction, lots: u32) -> Seq<char> {
    state + direction.name() + " "@ + decimal(lots as int)
}

fn append_head(s: &mut String, state: &str, direction: Direction, lots: u32)
    ensures
        final(s)@ == old(s)@ + market_head(state@, direction, lots),
{
    s.append(state);
    s.append(direction.to_str());
    s.append(" ");
    append_decimal(s, lots as i128);
    assert(final(s)@ =~= old(s)@ + market_head(state@, direction, lots));
}

/// Every market order is in exactly one lifecycle state.
pub proof fn lemma_market_order_one_state(o: MarketOrder)
    ensures
        o.states_held() == 1,
{
}

/// A market order that is not placed yet.
#[derive(Debug, Clone, PartialEq)]
pub struct NewMarketOrder {
    pub direction: Direction,
    pub lots: u32,
}

impl NewMarketOrder {
    /// The broker accepted the order under `broker_id`.
    pub fn post(self, broker_id: &str) -> (r: PostedMarketOrder)
        ensures
            r.direction == self.direction,
            r.lots == self.lots,
            r.broker_id@ == broker_id@,
            r.transactions@ == Seq::<Transaction>::empty(),
    {
        PostedMarketOrder {
            direction: self.direction,
            lots: self.lots,
            broker_id: broker_id.to_string(),
            transactions: Vec::new(),
        }
    }

    /// The order was never placed, for the reason `meta`.
    pub fn reject(self, meta: &str) -> (r: RejectedMarketOrder)
        ensures
            r.direction == self.direction,
            r.lots == self.lots,
            r.meta@ == meta@,
    {
        RejectedMarketOrder { direction: self.direction, lots: self.lots, meta: meta.to_string() }
    }
}

/// A market order placed with the broker, collecting its executions.
#[derive(Debug, Clone, PartialEq)]
pub struct PostedMarketOrder {
    pub direction: Direction,
    pub lots: u32,
    pub broker_id: String,
    pub transactions: Vec<Transaction>,
}

impl PostedMarketOrder {
    /// Records one more execution, after those already recorded.
    pub fn add_transaction(&mut self, t: Transaction)
        ensures
            final(self).direction == old(self).direction,
            final(self).lots == old(self).lots,
            final(self).broker_id == old(self).broker_id,
            final(self).transactions@ == old(self).transactions@.push(t),
    {
        self.transactions.push(t);
    }

    /// Settles the order: its executions are aggregated into one operation.
    pub fn fill(self, ts_nanos: i64, commission: i64) -> (r: FilledMarketOrder)
        requires
            self.transactions@.len() <= u32::MAX,
        ensures
            r.direction == self.direction,
            r.lots == self.lots,
            r.broker_id == self.broker_id,
            r.transactions@ == self.transactions@,
            r.operation.aggregates(ts_nanos, self.transactions@, commission),
    {
        let operation = Operation::from(ts_nanos, &self.transactions, commission);
        FilledMarketOrder {
            direction: self.direction,
            lots: self.lots,
            broker_id: self.broker_id,
            transactions: self.transactions,
            operation,
        }
    }
}

/// A settled market order.
#[derive(Debug, Clone, PartialEq)]
pub struct FilledMarketOrder {
    pub direction: Direction,
    pub lots: u32,
    pub broker_id: String,
    pub transactions: Vec<Transaction>,
    pub operation: Operation,
}

/// A market order that was never placed.
#[derive(Debug, Clone, PartialEq)]
pub struct RejectedMarketOrder {
    pub direction: Direction,
    pub lots: u32,
    pub meta: String,
}

} // verus!
