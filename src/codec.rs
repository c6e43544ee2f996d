use crate::transaction::Transaction;
use vstd::prelude::*;

verus! {

/// An order laid out as plain values: state tag, whether it buys, lots,
/// price, text (broker id or reason), executions, and the operation's
/// timestamp, quantity, value and commission.
pub type Record = (u8, bool, u32, i64, String, Vec<(u32, i64)>, (i64, u64, i128, i64));

/// The bytes that bitcode writes for the record with these fields.
pub uninterp spec fn bitcode_bytes(
    tag: u8,
    buy: bool,
    lots: u32,
    price: i64,
    text: Seq<char>,
    fills: Seq<(u32, i64)>,
    op: (i64, u64, i128, i64),
) -> Seq<u8>;

/// Relies on `bitcode::encode`: the compact binary form of a record; the same
/// fields always give the same bytes.
#[verifier::external_body]
pub(crate) fn encode_record(r: &Record) -> (b: Vec<u8>)
    ensures
        b@ == bitcode_bytes(r.0, r.1, r.2, r.3, r.4@, r.5@, r.6),
{
    bitcode::encode(r)
}

/// `r` holds exactly the record with these fields.
pub open spec fn holds_record(
    r: Option<Record>,
    tag: u8,
    buy: bool,
    lots: u32,
    price: i64,
    text: Seq<char>,
    fills: Seq<(u32, i64)>,
    op: (i64, u64, i128, i64),
) -> bool {
    match r {
        Some(v) => {
            &&& v.0 == tag
            &&& v.1 == buy
            &&& v.2 == lots
            &&& v.3 == price
            &&& v.4@ == text
            &&& v.5@ == fills
            &&& v.6 == op
        },
        None => false,
    }
}

/// Relies on `bitcode::decode`: bytes that `bitcode::encode` wrote for a
/// record decode to that record (a decoding error becomes `None`).
#[verifier::external_body]
pub(crate) fn decode_record(bytes: &[u8]) -> (r: Option<Record>)
    ensures
        forall|tag: u8, buy: bool, lots: u32, price: i64, text: Seq<char>, fills: Seq<(u32, i64)>, op: (i64, u64, i128, i64)|
            #[trigger] bitcode_bytes(tag, buy, lots, price, text, fills, op) == bytes@
                ==> holds_record(r, tag, buy, lots, price, text, fills, op),
{
    bitcode::decode::<Record>(bytes).ok()
}

/// Executions as (quantity, price) pairs.
pub open spec fn pairs_of(ts: Seq<Transaction>) -> Seq<(u32, i64)> {
    ts.map_values(|t: Transaction| (t.quantity, t.price))
}

/// The executions that the (quantity, price) pairs stand for.
pub open spec fn transactions_of(ps: Seq<(u32, i64)>) -> Seq<Transaction> {
    ps.map_values(|p: (u32, i64)| Transaction { quantity: p.0, price: p.1 })
}

/// Pairs give back the executions they were made from.
pub broadcast proof fn lemma_pairs_inverse(ts: Seq<Transaction>)
    ensures
        #[trigger] transactions_of(pairs_of(ts)) == ts,
{
    assert(transactions_of(pairs_of(ts)) =~= ts);
}

pub fn to_pairs(ts: &Vec<Transaction>) -> (r: Vec<(u32, i64)>)
    ensures
        r@ == pairs_of(ts@),
{
    let mut r: Vec<(u32, i64)> = Vec::new();
    let mut i: usize = 0;
    while i < ts.len()
        invariant
            i <= ts@.len(),
            r@ == pairs_of(ts@.take(i as int)),
        decreases ts@.len() - i,
    {
        r.push((ts[i].quantity, ts[i].price));
        i = i + 1;
        assert(r@ =~= pairs_of(ts@.take(i as int)));
    }
    assert(ts@.take(i as int) =~= ts@);
    r
}

pub fn from_pairs(ps: &Vec<(u32, i64)>) -> (r: Vec<Transaction>)
    ensures
        r@ == transactions_of(ps@),
{
    let mut r: Vec<Transaction> = Vec::new();
    let mut i: usize = 0;
    while i < ps.len()
        invariant
            i <= ps@.len(),
            r@ == transactions_of(ps@.take(i as int)),
        decreases ps@.len() - i,
    {
        let p = ps[i];
        r.push(Transaction { quantity: p.0, price: p.1 });
        i = i + 1;
        assert(r@ =~= transactions_of(ps@.take(i as int)));
    }
    assert(ps@.take(i as int) =~= ps@);
    r
}

} // verus!
