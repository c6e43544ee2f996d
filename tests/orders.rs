use avin::direction::Direction;
use avin::limit_order::{CanceledLimitOrder, LimitOrder};
use avin::market_order::MarketOrder;
use avin::operation::Operation;
use avin::text::decimal_text;
use avin::transaction::Transaction;
use chrono::{DateTime, Utc};

/// Amounts are held in cents.
fn cents(x: f64) -> i64 {
    (x * 100.0).round() as i64
}

#[test]
fn limit_order_new_post_fill() {
    let new = LimitOrder::new(Direction::Buy, 2, cents(4500.0));

    let mut posted = new.post("order_id=100500");
    assert_eq!(posted.broker_id, "order_id=100500");

    let t1 = Transaction::new(1, cents(4500.0));
    posted.add_transaction(t1);
    assert_eq!(posted.broker_id, "order_id=100500");
    assert_eq!(posted.transactions.len(), 1);

    let t2 = Transaction::new(1, cents(4510.0));
    posted.add_transaction(t2);
    assert_eq!(posted.broker_id, "order_id=100500");
    assert_eq!(posted.transactions.len(), 2);

    let dt = Utc::now();
    let ts = dt.timestamp_nanos_opt().unwrap();
    let order = posted.fill(ts, cents(4.5));
    assert_eq!(DateTime::from_timestamp_nanos(order.operation.ts_nanos), dt);
    assert_eq!(order.operation.ts_nanos, ts);
    assert_eq!(order.operation.quantity, 2);
    assert_eq!(order.operation.value, cents(9010.0) as i128);
    assert_eq!(order.operation.commission, cents(4.5));
}

#[test]
fn limit_order_reject() {
    let new = LimitOrder::new(Direction::Buy, 100, cents(400.0));
    assert_eq!(new.direction, Direction::Buy);
    assert_eq!(new.lots, 100);
    assert_eq!(new.price, cents(400.0));

    let reject = new.reject("not enought money");
    assert_eq!(reject.meta, "not enought money");
}

#[test]
fn market_order_new_post_fill() {
    let new = MarketOrder::new(Direction::Buy, 10);

    let mut posted = new.post("order_id=100500");
    assert_eq!(posted.broker_id, "order_id=100500");

    let t1 = Transaction::new(5, cents(320.0));
    posted.add_transaction(t1);
    assert_eq!(posted.broker_id, "order_id=100500");
    assert_eq!(posted.transactions.len(), 1);

    let t2 = Transaction::new(5, cents(320.0));
    posted.add_transaction(t2);
    assert_eq!(posted.broker_id, "order_id=100500");
    assert_eq!(posted.transactions.len(), 2);

    let dt = Utc::now();
    let ts = dt.timestamp_nanos_opt().unwrap();
    let order = posted.fill(ts, cents(3.2));
    assert_eq!(DateTime::from_timestamp_nanos(order.operation.ts_nanos), dt);
    assert_eq!(order.operation.quantity, 10);
    assert_eq!(order.operation.value, cents(3200.0) as i128);
    assert_eq!(order.operation.commission, cents(3.2));
}

#[test]
fn market_order_reject() {
    let new = MarketOrder::new(Direction::Sell, 10);
    assert_eq!(new.direction, Direction::Sell);
    assert_eq!(new.lots, 10);

    let reject = new.reject("market is closed");
    assert_eq!(reject.meta, "market is closed");
}

#[test]
fn post_keeps_intent_and_starts_empty() {
    let posted = LimitOrder::new(Direction::Buy, 2, 450000).post("order_id=100500");
    assert_eq!(posted.direction, Direction::Buy);
    assert_eq!(posted.lots, 2);
    assert_eq!(posted.price, 450000);
    assert_eq!(posted.broker_id, "order_id=100500");
    assert!(posted.transactions.is_empty());
}

#[test]
fn reject_keeps_intent() {
    let rejected = LimitOrder::new(Direction::Buy, 100, 40000).reject("not enough money");
    assert_eq!(rejected.direction, Direction::Buy);
    assert_eq!(rejected.lots, 100);
    assert_eq!(rejected.price, 40000);
    assert_eq!(rejected.meta, "not enough money");
}

#[test]
fn cancel_keeps_transactions_in_order() {
    let mut posted = LimitOrder::new(Direction::Sell, 5, 1000).post("id-7");
    let ts = [Transaction::new(2, 1000), Transaction::new(1, 990), Transaction::new(1, 1010)];
    for t in ts {
        posted.add_transaction(t);
    }
    let canceled: CanceledLimitOrder = posted.cancel();
    assert_eq!(canceled.transactions, ts.to_vec());
    assert_eq!(canceled.broker_id, "id-7");
    assert_eq!(canceled.price, 1000);
    assert_eq!(canceled.lots, 5);
}

#[test]
fn fill_order_of_executions_is_irrelevant() {
    let ts = [Transaction::new(3, 100), Transaction::new(1, -50), Transaction::new(7, 320)];
    let mut a = MarketOrder::new(Direction::Buy, 11).post("a");
    let mut b = MarketOrder::new(Direction::Buy, 11).post("a");
    for t in ts {
        a.add_transaction(t);
    }
    for t in ts.iter().rev() {
        b.add_transaction(*t);
    }
    let fa = a.fill(1, 9);
    let fb = b.fill(1, 9);
    assert_eq!(fa.operation, fb.operation);
    assert_eq!(fa.operation.quantity, 11);
    assert_eq!(fa.operation.value, 300 - 50 + 2240);
}

#[test]
fn fill_without_executions() {
    let order = LimitOrder::new(Direction::Buy, 1, 10).post("x").fill(-5, 0);
    assert_eq!(
        order.operation,
        Operation { ts_nanos: -5, quantity: 0, value: 0, commission: 0 }
    );
    assert!(order.transactions.is_empty());
}

#[test]
fn fill_extreme_values_do_not_overflow() {
    let mut posted = MarketOrder::new(Direction::Sell, u32::MAX).post("big");
    posted.add_transaction(Transaction::new(u32::MAX, i64::MIN));
    posted.add_transaction(Transaction::new(u32::MAX, i64::MIN));
    let op = Operation::from(0, &posted.transactions, 0);
    assert_eq!(op.quantity, 2 * u32::MAX as u64);
    assert_eq!(op.value, 2 * (u32::MAX as i128) * (i64::MIN as i128));
}

#[test]
fn direction_names() {
    assert_eq!(Direction::Buy.to_str(), "Buy");
    assert_eq!(Direction::Sell.to_str(), "Sell");
}

fn limit_states() -> Vec<LimitOrder> {
    let new = LimitOrder::new(Direction::Sell, 3, 12345);
    let mut posted = new.clone().post("order_id=1");
    posted.add_transaction(Transaction::new(1, 12340));
    posted.add_transaction(Transaction::new(2, 12350));
    let filled = posted.clone().fill(1_700_000_000_000_000_000, 17);
    let canceled = posted.clone().cancel();
    let rejected = new.clone().reject("market is closed");
    vec![
        LimitOrder::New(new),
        LimitOrder::Posted(posted),
        LimitOrder::Filled(filled),
        LimitOrder::Rejected(rejected),
        LimitOrder::Canceled(canceled),
    ]
}

#[test]
fn limit_order_round_trip() {
    for order in limit_states() {
        let bytes = order.to_bytes();
        assert!(!bytes.is_empty());
        assert_eq!(LimitOrder::from_bytes(&bytes), Some(order));
    }
}

#[test]
fn limit_order_filled_round_trip_keeps_operation() {
    let filled = &limit_states()[2];
    let back = LimitOrder::from_bytes(&filled.to_bytes()).unwrap();
    match back {
        LimitOrder::Filled(o) => {
            assert_eq!(o.operation.quantity, 3);
            assert_eq!(o.operation.value, 12340 + 2 * 12350);
            assert_eq!(o.operation.commission, 17);
            assert_eq!(o.transactions.len(), 2);
        }
        other => panic!("wrong state: {:?}", other),
    }
}

#[test]
fn market_order_round_trip() {
    let new = MarketOrder::new(Direction::Buy, 10);
    let mut posted = new.clone().post("order_id=100500");
    posted.add_transaction(Transaction::new(5, 32000));
    posted.add_transaction(Transaction::new(5, 32010));
    let filled = posted.clone().fill(42, 320);
    let rejected = new.clone().reject("market is closed");
    let orders = vec![
        MarketOrder::New(new),
        MarketOrder::Posted(posted),
        MarketOrder::Filled(filled),
        MarketOrder::Rejected(rejected),
    ];
    for order in orders {
        assert_eq!(MarketOrder::from_bytes(&order.to_bytes()), Some(order));
    }
}

#[test]
fn states_encode_differently() {
    let states = limit_states();
    for (i, a) in states.iter().enumerate() {
        for b in states.iter().skip(i + 1) {
            assert_ne!(a.to_bytes(), b.to_bytes());
        }
    }
}

#[test]
fn decode_rejects_garbage_and_unknown_states() {
    assert_eq!(LimitOrder::from_bytes(&[]), None);
    assert_eq!(MarketOrder::from_bytes(&[]), None);
    let unknown = bitcode::encode(&(
        9u8,
        true,
        1u32,
        1i64,
        String::new(),
        Vec::<(u32, i64)>::new(),
        (0i64, 0u64, 0i128, 0i64),
    ));
    assert_eq!(LimitOrder::from_bytes(&unknown), None);
    assert_eq!(MarketOrder::from_bytes(&unknown), None);
    // a canceled limit order is no market order
    let canceled = limit_states().pop().unwrap();
    assert_eq!(MarketOrder::from_bytes(&canceled.to_bytes()), None);
}

#[test]
fn decimal_text_values() {
    assert_eq!(decimal_text(0), "0");
    assert_eq!(decimal_text(7), "7");
    assert_eq!(decimal_text(10), "10");
    assert_eq!(decimal_text(-4500), "-4500");
    assert_eq!(decimal_text(i128::MAX), i128::MAX.to_string());
    assert_eq!(decimal_text(i128::MIN), i128::MIN.to_string());
}

#[test]
fn operation_text() {
    let op = Operation { ts_nanos: -3, quantity: 2, value: 901000, commission: 450 };
    assert_eq!(op.describe(), "Operation=-3 2=901000 c=450");
}

#[test]
fn limit_order_texts() {
    let texts: Vec<String> = limit_states().iter().map(|o| o.describe()).collect();
    assert_eq!(texts[0], "LimitOrder::New=Sell 3x12345");
    assert_eq!(texts[1], "LimitOrder::Posted=Sell 3x12345 id=order_id=1 t=[1x12340, 2x12350]");
    assert_eq!(
        texts[2],
        "LimitOrder::Filled=Sell 3x12345 id=order_id=1 t=[1x12340, 2x12350] \
         Operation=1700000000000000000 3=37040 c=17"
    );
    assert_eq!(texts[3], "LimitOrder::Rejected=Sell 3x12345 meta=market is closed");
    assert_eq!(
        texts[4],
        "LimitOrder::Canceled=Sell 3x12345 id=order_id=1 transactions=[1x12340, 2x12350]"
    );
}

#[test]
fn market_order_texts() {
    let new = MarketOrder::new(Direction::Buy, 10);
    assert_eq!(MarketOrder::New(new.clone()).describe(), "MarketOrder::New=Buy 10");
    let mut posted = new.clone().post("b-1");
    assert_eq!(MarketOrder::Posted(posted.clone()).describe(), "MarketOrder::Posted=Buy 10 id=b-1 t=[]");
    posted.add_transaction(Transaction::new(10, -1));
    let filled = posted.fill(5, 0);
    assert_eq!(
        MarketOrder::Filled(filled).describe(),
        "MarketOrder::Filled=Buy 10 id=b-1 t=[10x-1] Operation=5 10=-10 c=0"
    );
    assert_eq!(
        MarketOrder::Rejected(new.reject("closed")).describe(),
        "MarketOrder::Rejected=Buy 10 meta=closed"
    );
}

#[test]
fn kinds_do_not_decode_as_each_other() {
    let new = MarketOrder::new(Direction::Buy, 1);
    let posted = new.clone().post("p");
    let filled = posted.clone().fill(0, 0);
    let rejected = new.clone().reject("r");
    for m in [
        MarketOrder::New(new),
        MarketOrder::Posted(posted),
        MarketOrder::Filled(filled),
        MarketOrder::Rejected(rejected),
    ] {
        assert_eq!(LimitOrder::from_bytes(&m.to_bytes()), None);
    }
    for l in limit_states() {
        assert_eq!(MarketOrder::from_bytes(&l.to_bytes()), None);
    }
}
