use laminardb_test::phase5_cdc::{is_whitespace_char, parse_test_decoding_change, CdcChange};

/// Splits a column section into `name[type]:value` entries: whitespace
/// separates entries except inside a `[type]` or a `'quoted value'`.
fn entries(section: &str) -> Vec<String> {
    let mut out = Vec::new();
    let mut cur = String::new();
    let (mut in_bracket, mut in_quote) = (false, false);
    for c in section.chars() {
        if c.is_whitespace() && !in_bracket && !in_quote {
            if !cur.is_empty() {
                out.push(std::mem::take(&mut cur));
            }
            continue;
        }
        cur.push(c);
        let was_bracket = in_bracket;
        if !in_quote && c == '[' {
            in_bracket = true;
        } else if !in_quote && c == ']' {
            in_bracket = false;
        }
        if !was_bracket && c == '\'' {
            in_quote = !in_quote;
        }
    }
    if !cur.is_empty() {
        out.push(cur);
    }
    out
}

/// A plain std implementation of the change-line reading, with `f64` amounts.
fn reference(data: &str) -> Option<(i32, i32, f64, String, i64)> {
    if !data.contains("table public.orders:") {
        return None;
    }
    let is_insert = data.contains("INSERT:");
    let is_update = data.contains("UPDATE:");
    if !is_insert && !is_update {
        return None;
    }
    let cols_section = if is_insert {
        data.split("INSERT:").nth(1)?
    } else {
        data.split("new-tuple:").nth(1).or_else(|| data.split("UPDATE:").nth(1))?
    };
    let mut id = 0i32;
    let mut customer_id = 0i32;
    let mut amount = 0.0f64;
    let mut status = String::new();
    let mut ts = 0i64;
    for token in entries(cols_section) {
        if let Some((col_type, value)) = token.split_once(':') {
            let col_name = col_type.split('[').next().unwrap_or("");
            let val = value.trim_matches('\'');
            match col_name {
                "id" => id = val.parse().unwrap_or(0),
                "customer_id" => customer_id = val.parse().unwrap_or(0),
                "amount" => amount = val.parse().unwrap_or(0.0),
                "status" => status = val.to_string(),
                "ts" => ts = val.parse().unwrap_or(0),
                _ => {}
            }
        }
    }
    if customer_id == 0 {
        return None;
    }
    Some((id, customer_id, amount, status, ts))
}

fn as_tuple(c: CdcChange) -> (i32, i32, f64, String, i64) {
    let amount = c.amount_text.map(|t| t.parse().unwrap_or(0.0)).unwrap_or(0.0);
    (c.id, c.customer_id, amount, c.status, c.ts)
}

fn check(data: &str) {
    let got = parse_test_decoding_change(data).map(as_tuple);
    let want = reference(data);
    match (&got, &want) {
        (Some(g), Some(w)) => {
            assert_eq!((g.0, g.1, &g.3, g.4), (w.0, w.1, &w.3, w.4), "line {:?}", data);
            assert!(g.2 == w.2 || (g.2.is_nan() && w.2.is_nan()), "amount, line {:?}", data);
        }
        (None, None) => {}
        _ => panic!("line {:?}: got {:?}, want {:?}", data, got, want),
    }
}

#[test]
fn parses_insert_line() {
    let line = "table public.orders: INSERT: id[integer]:123 customer_id[integer]:5 amount[double precision]:42.5 status[character varying]:'pending' ts[bigint]:1700000000000";
    let c = parse_test_decoding_change(line).expect("insert on orders yields a row");
    assert_eq!(c.id, 123);
    assert_eq!(c.customer_id, 5);
    assert_eq!(c.ts, 1700000000000);
    // Multi-word type names stay inside their entry.
    assert_eq!(c.status, "pending");
    assert_eq!(c.amount_text.as_deref(), Some("42.5"));
    check(line);
}

#[test]
fn reads_varchar_status_entry() {
    let line = "table public.orders: INSERT: id[integer]:1 customer_id[integer]:5 amount[numeric]:10.00 status[character varying]:'pending' ts[bigint]:42";
    let c = parse_test_decoding_change(line).unwrap();
    assert_eq!((c.id, c.customer_id, c.ts), (1, 5, 42));
    assert_eq!(c.amount_text.as_deref(), Some("10.00"));
    assert_eq!(c.status, "pending");
    let line = "table public.orders: INSERT: customer_id[integer]:2 status[character varying]:'on hold' ts[timestamp without time zone]:'2024-01-01 10:00:00'";
    let c = parse_test_decoding_change(line).unwrap();
    assert_eq!(c.status, "on hold");
    check(line);
}

#[test]
fn parses_single_word_columns() {
    let line = "table public.orders: INSERT: id[int]:7 customer_id[int]:9 amount[numeric]:12.25 status[text]:'completed' ts[int8]:-5";
    let c = parse_test_decoding_change(line).unwrap();
    assert_eq!((c.id, c.customer_id, c.ts), (7, 9, -5));
    assert_eq!(c.status, "completed");
    assert_eq!(c.amount_text.as_deref(), Some("12.25"));
    check(line);
}

#[test]
fn update_prefers_new_tuple() {
    let line = "table public.orders: UPDATE: old-key: id[int]:1 customer_id[int]:3 new-tuple: id[int]:1 customer_id[int]:4";
    let c = parse_test_decoding_change(line).unwrap();
    assert_eq!(c.customer_id, 4);
    check(line);
    let line = "table public.orders: UPDATE: id[int]:2 customer_id[int]:8";
    assert_eq!(parse_test_decoding_change(line).unwrap().customer_id, 8);
    check(line);
}

#[test]
fn rejects_other_lines() {
    for line in [
        "BEGIN 1234",
        "COMMIT 1234",
        "table public.customers: INSERT: id[int]:1 customer_id[int]:2",
        "table public.orders: DELETE: id[int]:1",
        "table public.orders: INSERT: id[int]:1",
        "table public.orders: INSERT: customer_id[int]:0",
        "table public.orders: INSERT: customer_id[int]:abc",
        "table public.orders: INSERT: customer_id[int]:99999999999",
    ] {
        assert!(parse_test_decoding_change(line).is_none(), "{}", line);
        check(line);
    }
}

#[test]
fn last_token_wins_and_quotes_trim() {
    let line = "table public.orders: INSERT: customer_id:1 customer_id:''-2147483648'' status:'' ts:+12";
    let c = parse_test_decoding_change(line).unwrap();
    assert_eq!(c.customer_id, i32::MIN);
    assert_eq!(c.status, "");
    assert_eq!(c.ts, 12);
    check(line);
}

#[test]
fn agrees_with_reference_on_generated_lines() {
    let pieces = [
        "table public.orders:", "INSERT:", "UPDATE:", "new-tuple:", " ", "\t", "\u{a0}", "\u{3000}",
        "\u{2028}", "id", "customer_id", "amount", "status", "ts", "[integer]", "[", "]", ":", "'",
        "7", "-", "+", "0", "12", "2147483648", "-2147483648", "9223372036854775807", "x", "1.5",
        "é", "INSERT:INSERT:", "\u{85}", "[character varying]", "'a b'",
    ];
    let mut x: u64 = 0x2545_F491_4F6C_DD1D;
    for _ in 0..200_000 {
        let mut line = String::new();
        x ^= x << 13;
        x ^= x >> 7;
        x ^= x << 17;
        let n = 1 + (x % 24) as usize;
        for k in 0..n {
            let y = x.rotate_left((k * 7) as u32) ^ (k as u64).wrapping_mul(0x9E37_79B9_7F4A_7C15);
            line.push_str(pieces[(y % pieces.len() as u64) as usize]);
        }
        check(&line);
        let mut with_prefix = String::from("table public.orders: INSERT: customer_id:3 ");
        with_prefix.push_str(&line);
        check(&with_prefix);
    }
}

#[test]
fn whitespace_model_matches_std() {
    for u in 0..=0x10FFFFu32 {
        if let Some(c) = char::from_u32(u) {
            assert_eq!(is_whitespace_char(c), c.is_whitespace(), "U+{:04X}", u);
        }
    }
}
