use synixe_bot::bank::{candlestick, spent_breakdown, Spending, Transaction};

const JAN_1: i64 = 1_704_067_200;
const JAN_2: i64 = 1_704_153_600;

#[test]
fn candles_per_day_oldest_first() {
    // the bank lists the history newest first
    let history = vec![
        Transaction { amount: -50, created: JAN_2 + 100 },
        Transaction { amount: 200, created: JAN_1 + 200 },
        Transaction { amount: 100, created: JAN_1 + 100 },
    ];
    let candles = candlestick(&history);
    assert_eq!(candles.len(), 2);
    assert_eq!(candles[0].day, "2024-01-01");
    assert_eq!((candles[0].open, candles[0].high, candles[0].low, candles[0].close), (0, 300, 0, 300));
    assert_eq!(candles[1].day, "2024-01-02");
    assert_eq!((candles[1].open, candles[1].high, candles[1].low, candles[1].close), (300, 300, 250, 250));
}

#[test]
fn candle_low_below_open() {
    let history = vec![
        Transaction { amount: 40, created: JAN_1 + 300 },
        Transaction { amount: -100, created: JAN_1 + 200 },
    ];
    let candles = candlestick(&history);
    assert_eq!(candles.len(), 1);
    let c = &candles[0];
    assert_eq!((c.open, c.high, c.low, c.close), (0, 0, -100, -60));
    assert!(c.low <= c.open && c.low <= c.close && c.open <= c.high && c.close <= c.high);
}

#[test]
fn spending_sorted_without_zero_costs() {
    let spending = vec![
        Spending { category: "a".into(), cost: 10 },
        Spending { category: "b".into(), cost: 0 },
        Spending { category: "c".into(), cost: 30 },
        Spending { category: "d".into(), cost: 10 },
        Spending { category: "e".into(), cost: -5 },
    ];
    let r = spent_breakdown(&spending);
    let names: Vec<(&str, i32)> = r.iter().map(|s| (s.category.as_str(), s.cost)).collect();
    assert_eq!(names, vec![("c", 30), ("a", 10), ("d", 10), ("e", -5)]);
}

#[test]
fn spending_empty() {
    assert!(spent_breakdown(&vec![]).is_empty());
    assert!(spent_breakdown(&vec![Spending { category: "x".into(), cost: 0 }]).is_empty());
}
