use laminardb_test::decimal::{parse_i32, parse_i64, parse_u64, push_decimal, push_zero_padded};
use laminardb_test::generator::{format_order_id, format_sequence_id, symbol_name, OrderSequence, SYMBOL_COUNT};

fn chars(s: &str) -> Vec<char> {
    s.chars().collect()
}

#[test]
fn decimal_text_matches_display() {
    for n in [0u64, 1, 9, 10, 99, 100, 12345, u64::MAX] {
        let mut out = Vec::new();
        push_decimal(&mut out, n);
        assert_eq!(out.iter().collect::<String>(), n.to_string());
    }
}

#[test]
fn zero_padding_matches_format() {
    for n in [0u64, 7, 42, 999_999, 1_000_000, 123_456_789] {
        for w in 0..9usize {
            let mut out = Vec::new();
            push_zero_padded(&mut out, n, w);
            assert_eq!(out.iter().collect::<String>(), format!("{:0w$}", n, w = w));
        }
    }
}

#[test]
fn integer_reading_matches_std() {
    let samples = [
        "", "+", "-", "0", "-0", "+0", "007", "123", "-123", "+123", "2147483647", "2147483648",
        "-2147483648", "-2147483649", "9223372036854775807", "9223372036854775808",
        "-9223372036854775808", "-9223372036854775809", "18446744073709551615",
        "18446744073709551616", "1 2", " 1", "1a", "--1", "+-1", "٣", "99999999999999999999999",
    ];
    for s in samples {
        let v = chars(s);
        assert_eq!(parse_i32(&v), s.parse::<i32>().ok(), "i32 {:?}", s);
        assert_eq!(parse_i64(&v), s.parse::<i64>().ok(), "i64 {:?}", s);
        assert_eq!(parse_u64(&v), s.parse::<u64>().ok(), "u64 {:?}", s);
    }
    let alphabet = ['0', '1', '9', '-', '+', 'x', '5'];
    let mut x: u64 = 0x1234_5678_9abc_def1;
    for _ in 0..100_000 {
        x ^= x << 13;
        x ^= x >> 7;
        x ^= x << 17;
        let len = (x % 22) as usize;
        let s: String = (0..len).map(|k| alphabet[((x >> (k * 2 % 60)) % 7) as usize]).collect();
        let v = chars(&s);
        assert_eq!(parse_i32(&v), s.parse::<i32>().ok(), "i32 {:?}", s);
        assert_eq!(parse_i64(&v), s.parse::<i64>().ok(), "i64 {:?}", s);
        assert_eq!(parse_u64(&v), s.parse::<u64>().ok(), "u64 {:?}", s);
    }
}

#[test]
fn order_ids_are_zero_padded() {
    assert_eq!(format_order_id(1), "ORD-000001");
    assert_eq!(format_order_id(1_234_567), "ORD-1234567");
    assert_eq!(format_sequence_id("T-", 42), "T-000042");
    let mut seq = OrderSequence::new();
    assert_eq!(seq.next_order_id(), "ORD-000001");
    assert_eq!(seq.next_order_id(), "ORD-000002");
    assert_eq!(seq.last, 2);
}

#[test]
fn symbols_in_order() {
    let names: Vec<&str> = (0..SYMBOL_COUNT).map(symbol_name).collect();
    assert_eq!(names, vec!["AAPL", "GOOGL", "MSFT", "AMZN", "TSLA"]);
}
