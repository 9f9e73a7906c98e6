//! CDC capture through `pg_logical_slot_get_changes()`: reading the change
//! lines of the `test_decoding` plugin into order rows.

use vstd::prelude::*;

use crate::decimal::{parse_i32, parse_i64, parse_integer};
use crate::text::{
    chars_of, contains, copy_range, find_from, find_from_exec, push_str_chars, range_equals,
    second_segment, second_segment_exec, string_from_chars,
};

verus! {

// ---------------------------------------------------------------------------
// Specification

/// `char::is_whitespace`: the Unicode `White_Space` property.
pub open spec fn is_whitespace(c: char) -> bool {
    let u = c as u32;
    (0x09 <= u && u <= 0x0d) || u == 0x20 || u == 0x85 || u == 0xa0 || u == 0x1680 || (0x2000 <= u
        && u <= 0x200a) || u == 0x2028 || u == 0x2029 || u == 0x202f || u == 0x205f || u == 0x3000
}

/// Progress of splitting a column section into entries, left to right: the
/// finished entries, the entry in progress, and whether the scan is inside a
/// `[type]` bracket or a `'value'` quote (where whitespace does not split).
pub struct EntryScan {
    pub done: Seq<Seq<char>>,
    pub cur: Seq<char>,
    pub in_bracket: bool,
    pub in_quote: bool,
}

/// One character of the scan. Whitespace outside brackets and quotes ends
/// the entry in progress; any other character joins it. `[` and `]` open and
/// close a type outside quotes; `'` opens or closes a value outside brackets
/// (a doubled `''` inside a value closes and reopens it).
pub open spec fn entry_step(st: EntryScan, c: char) -> EntryScan {
    if is_whitespace(c) && !st.in_bracket && !st.in_quote {
        EntryScan {
            done: if st.cur.len() > 0 { st.done.push(st.cur) } else { st.done },
            cur: seq![],
            in_bracket: false,
            in_quote: false,
        }
    } else {
        EntryScan {
            done: st.done,
            cur: st.cur.push(c),
            in_bracket: if st.in_quote { st.in_bracket } else if c == '[' { true } else if c == ']' {
                false
            } else { st.in_bracket },
            in_quote: if !st.in_bracket && c == '\'' { !st.in_quote } else { st.in_quote },
        }
    }
}

/// The scan after reading all of `s`.
pub open spec fn split_progress(s: Seq<char>) -> EntryScan
    decreases s.len(),
{
    if s.len() == 0 {
        EntryScan { done: seq![], cur: seq![], in_bracket: false, in_quote: false }
    } else {
        entry_step(split_progress(s.drop_last()), s.last())
    }
}

/// The `name[type]:value` entries of a column section. `test_decoding`
/// separates entries by spaces, but a type name may hold spaces
/// (`status[character varying]:'pending'`) and so may a quoted value.
pub open spec fn entries(s: Seq<char>) -> Seq<Seq<char>> {
    let st = split_progress(s);
    if st.cur.len() > 0 {
        st.done.push(st.cur)
    } else {
        st.done
    }
}

/// Number of leading `c` in `s`.
pub open spec fn leading_count(s: Seq<char>, c: char) -> nat
    decreases s.len(),
{
    if s.len() > 0 && s[0] == c {
        1 + leading_count(s.drop_first(), c)
    } else {
        0
    }
}

/// Number of trailing `c` in `s`.
pub open spec fn trailing_count(s: Seq<char>, c: char) -> nat
    decreases s.len(),
{
    if s.len() > 0 && s.last() == c {
        1 + trailing_count(s.drop_last(), c)
    } else {
        0
    }
}

/// `s.trim_matches(c)`.
pub open spec fn trim_matches(s: Seq<char>, c: char) -> Seq<char> {
    let rest = s.skip(leading_count(s, c) as int);
    rest.take(rest.len() - trailing_count(rest, c))
}

/// The last value seen for each column of the `orders` table
/// (`None` while no entry named the column).
pub struct ColumnValues {
    pub id: Option<Seq<char>>,
    pub customer_id: Option<Seq<char>>,
    pub amount: Option<Seq<char>>,
    pub status: Option<Seq<char>>,
    pub ts: Option<Seq<char>>,
}

pub open spec fn no_columns() -> ColumnValues {
    ColumnValues { id: None, customer_id: None, amount: None, status: None, ts: None }
}

/// Column name of a `name[type]` entry head: the text before the first `[`.
pub open spec fn column_name(col_type: Seq<char>) -> Seq<char> {
    match find_from(col_type, seq!['['], 0) {
        None => col_type,
        Some(b) => col_type.take(b as int),
    }
}

/// One `name[type]:value` entry: the value, quotes trimmed, is recorded under
/// its column; entries without `:` or naming other columns change nothing.
pub open spec fn apply_token(c: ColumnValues, tok: Seq<char>) -> ColumnValues {
    match find_from(tok, seq![':'], 0) {
        None => c,
        Some(k) => {
            let name = column_name(tok.take(k as int));
            let val = trim_matches(tok.skip((k + 1) as int), '\'');
            if name == "id"@ {
                ColumnValues { id: Some(val), customer_id: c.customer_id, amount: c.amount, status: c.status, ts: c.ts }
            } else if name == "customer_id"@ {
                ColumnValues { id: c.id, customer_id: Some(val), amount: c.amount, status: c.status, ts: c.ts }
            } else if name == "amount"@ {
                ColumnValues { id: c.id, customer_id: c.customer_id, amount: Some(val), status: c.status, ts: c.ts }
            } else if name == "status"@ {
                ColumnValues { id: c.id, customer_id: c.customer_id, amount: c.amount, status: Some(val), ts: c.ts }
            } else if name == "ts"@ {
                ColumnValues { id: c.id, customer_id: c.customer_id, amount: c.amount, status: c.status, ts: Some(val) }
            } else {
                c
            }
        },
    }
}

/// The entries applied in order.
pub open spec fn apply_all(c: ColumnValues, toks: Seq<Seq<char>>) -> ColumnValues
    decreases toks.len(),
{
    if toks.len() == 0 {
        c
    } else {
        apply_token(apply_all(c, toks.drop_last()), toks.last())
    }
}

/// Column section of a change line: after `INSERT:` for inserts; for
/// updates after `new-tuple:` when present, else after `UPDATE:`.
pub open spec fn column_section(data: Seq<char>) -> Option<Seq<char>> {
    if contains(data, "INSERT:"@) {
        second_segment(data, "INSERT:"@)
    } else {
        match second_segment(data, "new-tuple:"@) {
            Some(x) => Some(x),
            None => second_segment(data, "UPDATE:"@),
        }
    }
}

/// Whether the line is an insert or update on `public.orders`.
pub open spec fn is_orders_change(data: Seq<char>) -> bool {
    contains(data, "table public.orders:"@) && (contains(data, "INSERT:"@) || contains(
        data,
        "UPDATE:"@,
    ))
}

pub open spec fn change_columns(data: Seq<char>) -> ColumnValues {
    match column_section(data) {
        Some(sec) => apply_all(no_columns(), entries(sec)),
        None => no_columns(),
    }
}

/// `v.parse().unwrap_or(0)` for an integer column (0 when the column is absent).
pub open spec fn integer_column(v: Option<Seq<char>>, min: int, max: int) -> int {
    match v {
        None => 0,
        Some(t) => match parse_integer(t, min, max) {
            Some(x) => x,
            None => 0,
        },
    }
}

pub open spec fn change_customer_id(data: Seq<char>) -> int {
    integer_column(change_columns(data).customer_id, i32::MIN as int, i32::MAX as int)
}

/// Whether a line yields an order row: an orders insert/update whose
/// customer id reads as non-zero.
pub open spec fn yields_order(data: Seq<char>) -> bool {
    is_orders_change(data) && column_section(data) is Some && change_customer_id(data) != 0
}

// ---------------------------------------------------------------------------
// Executable parser

/// An order row read from a change line. The `amount` column is kept as its
/// text: the caller reads it as a number (`0.0` when absent or unreadable).
pub struct CdcChange {
    pub id: i32,
    pub customer_id: i32,
    pub amount_text: Option<String>,
    pub status: String,
    pub ts: i64,
}

/// Exec counterpart of `is_whitespace`.
pub fn is_whitespace_char(c: char) -> (b: bool)
    ensures
        b == is_whitespace(c),
{
    let u = c as u32;
    (0x09 <= u && u <= 0x0d) || u == 0x20 || u == 0x85 || u == 0xa0 || u == 0x1680 || (0x2000 <= u
        && u <= 0x200a) || u == 0x2028 || u == 0x2029 || u == 0x202f || u == 0x205f || u == 0x3000
}

struct ColumnTexts {
    id: Option<Vec<char>>,
    customer_id: Option<Vec<char>>,
    amount: Option<Vec<char>>,
    status: Option<Vec<char>>,
    ts: Option<Vec<char>>,
}

spec fn opt_view(o: Option<Vec<char>>) -> Option<Seq<char>> {
    match o {
        None => None,
        Some(v) => Some(v@),
    }
}

impl ColumnTexts {
    spec fn view_columns(&self) -> ColumnValues {
        ColumnValues {
            id: opt_view(self.id),
            customer_id: opt_view(self.customer_id),
            amount: opt_view(self.amount),
            status: opt_view(self.status),
            ts: opt_view(self.ts),
        }
    }
}

struct ColumnNames {
    id: Vec<char>,
    customer_id: Vec<char>,
    amount: Vec<char>,
    status: Vec<char>,
    ts: Vec<char>,
    colon: Vec<char>,
    bracket: Vec<char>,
}

impl ColumnNames {
    spec fn wf(&self) -> bool {
        &&& self.id@ == "id"@
        &&& self.customer_id@ == "customer_id"@
        &&& self.amount@ == "amount"@
        &&& self.status@ == "status"@
        &&& self.ts@ == "ts"@
        &&& self.colon@ == seq![':']
        &&& self.bracket@ == seq!['[']
    }

    fn new() -> (r: Self)
        ensures
            r.wf(),
    {
        let mut colon: Vec<char> = Vec::new();
        colon.push(':');
        let mut bracket: Vec<char> = Vec::new();
        bracket.push('[');
        assert(colon@ =~= seq![':']);
        assert(bracket@ =~= seq!['[']);
        ColumnNames {
            id: chars_of("id"),
            customer_id: chars_of("customer_id"),
            amount: chars_of("amount"),
            status: chars_of("status"),
            ts: chars_of("ts"),
            colon,
            bracket,
        }
    }
}

/// Range `[lo, hi)` of `tok[from..]` after trimming `'` on both sides.
fn trim_quote_range(tok: &Vec<char>, from: usize) -> (r: (usize, usize))
    requires
        from <= tok@.len(),
    ensures
        from <= r.0 <= r.1 <= tok@.len(),
        tok@.subrange(r.0 as int, r.1 as int) == trim_matches(tok@.skip(from as int), '\''),
{
    let n = tok.len();
    let ghost s = tok@.skip(from as int);
    let mut lo: usize = from;
    while lo < n && tok[lo] == '\''
        invariant
            from <= lo <= n,
            n == tok@.len(),
            s == tok@.skip(from as int),
            leading_count(s, '\'') == (lo - from) + leading_count(tok@.skip(lo as int), '\''),
        decreases n - lo,
    {
        assert(tok@.skip(lo as int).drop_first() =~= tok@.skip(lo + 1));
        lo = lo + 1;
    }
    assert(leading_count(tok@.skip(lo as int), '\'') == 0);
    let ghost rest = tok@.skip(lo as int);
    assert(s.skip(leading_count(s, '\'') as int) =~= rest);
    let mut hi: usize = n;
    while hi > lo && tok[hi - 1] == '\''
        invariant
            from <= lo <= hi <= n,
            n == tok@.len(),
            rest == tok@.skip(lo as int),
            trailing_count(rest, '\'') == (n - hi) + trailing_count(
                tok@.subrange(lo as int, hi as int),
                '\'',
            ),
        decreases hi,
    {
        assert(tok@.subrange(lo as int, hi as int).drop_last() =~= tok@.subrange(
            lo as int,
            hi - 1,
        ));
        hi = hi - 1;
    }
    assert(trailing_count(tok@.subrange(lo as int, hi as int), '\'') == 0);
    assert(rest =~= tok@.subrange(lo as int, n as int));
    assert(rest.take(rest.len() - trailing_count(rest, '\'')) =~= tok@.subrange(lo as int, hi as int));
    (lo, hi)
}

/// Records one entry into `cols`, as `apply_token` describes.
fn apply_token_exec(cols: &mut ColumnTexts, tok: &Vec<char>, names: &ColumnNames)
    requires
        names.wf(),
    ensures
        final(cols).view_columns() == apply_token(old(cols).view_columns(), tok@),
{
    let _len = tok.len();
    let colon_at = find_from_exec(tok, &names.colon, 0);
    match colon_at {
        None => {},
        Some(k) => {
            let ghost col_type = tok@.take(k as int);
            let head = copy_range(tok, 0, k);
            assert(head@ =~= col_type);
            let bracket_at = find_from_exec(&head, &names.bracket, 0);
            let name_end: usize = match bracket_at {
                None => k,
                Some(b) => b,
            };
            assert(head@.subrange(0, name_end as int) == column_name(col_type)) by {
                match bracket_at {
                    None => {
                        assert(head@.subrange(0, k as int) =~= head@);
                    },
                    Some(b) => {
                        assert(head@.subrange(0, b as int) =~= head@.take(b as int));
                    },
                }
            };
            let (lo, hi) = trim_quote_range(tok, k + 1);
            let val = copy_range(tok, lo, hi);
            let ghost c = cols.view_columns();
            if range_equals(&head, 0, name_end, &names.id) {
                cols.id = Some(val);
            } else if range_equals(&head, 0, name_end, &names.customer_id) {
                cols.customer_id = Some(val);
            } else if range_equals(&head, 0, name_end, &names.amount) {
                cols.amount = Some(val);
            } else if range_equals(&head, 0, name_end, &names.status) {
                cols.status = Some(val);
            } else if range_equals(&head, 0, name_end, &names.ts) {
                cols.ts = Some(val);
            }
        },
    }
}

/// Applies every entry of `data[lo..hi]`, as `entries` splits them.
fn apply_words(data: &Vec<char>, lo: usize, hi: usize, names: &ColumnNames) -> (r: ColumnTexts)
    requires
        lo <= hi <= data@.len(),
        names.wf(),
    ensures
        r.view_columns() == apply_all(no_columns(), entries(data@.subrange(lo as int, hi as int))),
{
    let ghost sec = data@.subrange(lo as int, hi as int);
    let mut cols = ColumnTexts { id: None, customer_id: None, amount: None, status: None, ts: None };
    let mut i: usize = lo;
    let mut start: usize = lo;
    let mut in_bracket = false;
    let mut in_quote = false;
    while i < hi
        invariant
            lo <= start <= i <= hi <= data@.len(),
            names.wf(),
            sec == data@.subrange(lo as int, hi as int),
            split_progress(sec.take(i - lo)).cur == data@.subrange(start as int, i as int),
            split_progress(sec.take(i - lo)).in_bracket == in_bracket,
            split_progress(sec.take(i - lo)).in_quote == in_quote,
            cols.view_columns() == apply_all(no_columns(), split_progress(sec.take(i - lo)).done),
        decreases hi - i,
    {
        let c = data[i];
        let ghost prev = sec.take(i - lo);
        let ghost next = sec.take(i - lo + 1);
        assert(next.drop_last() =~= prev);
        assert(next.last() == c);
        let ghost st = split_progress(prev);
        if is_whitespace_char(c) && !in_bracket && !in_quote {
            if start < i {
                let tok = copy_range(data, start, i);
                apply_token_exec(&mut cols, &tok, names);
                assert(st.done.push(st.cur).drop_last() =~= st.done);
            }
            i = i + 1;
            start = i;
            assert(data@.subrange(start as int, i as int) =~= seq![]);
        } else {
            let was_bracket = in_bracket;
            if !in_quote {
                if c == '[' {
                    in_bracket = true;
                } else if c == ']' {
                    in_bracket = false;
                }
            }
            if !was_bracket && c == '\'' {
                in_quote = !in_quote;
            }
            i = i + 1;
            assert(data@.subrange(start as int, i as int) =~= st.cur.push(c));
        }
    }
    assert(sec.take(hi - lo) =~= sec);
    if start < hi {
        let tok = copy_range(data, start, hi);
        apply_token_exec(&mut cols, &tok, names);
        let ghost st = split_progress(sec);
        assert(st.done.push(st.cur).drop_last() =~= st.done);
    }
    cols
}

fn integer_text_i32(v: &Option<Vec<char>>) -> (r: i32)
    ensures
        r as int == integer_column(opt_view(*v), i32::MIN as int, i32::MAX as int),
{
    match v {
        None => 0,
        Some(t) => match parse_i32(t) {
            Some(x) => x,
            None => 0,
        },
    }
}

fn integer_text_i64(v: &Option<Vec<char>>) -> (r: i64)
    ensures
        r as int == integer_column(opt_view(*v), i64::MIN as int, i64::MAX as int),
{
    match v {
        None => 0,
        Some(t) => match parse_i64(t) {
            Some(x) => x,
            None => 0,
        },
    }
}

/// Parses a `test_decoding` change line such as
/// `table public.orders: INSERT: id[integer]:123 customer_id[integer]:5 ...`.
///
/// Only inserts and updates on `public.orders` whose customer id reads as
/// non-zero give a row. The column section splits into `name[type]:value`
/// entries at whitespace outside `[type]` and `'value'` (type names such as
/// `character varying` hold spaces). Each column takes the value of the last
/// entry that names it; integer columns that are absent or unreadable read as 0.
pub fn parse_test_decoding_change(data: &str) -> (r: Option<CdcChange>)
    ensures
        r is Some <==> yields_order(data@),
        r matches Some(c) ==> {
            let cols = change_columns(data@);
            &&& c.id as int == integer_column(cols.id, i32::MIN as int, i32::MAX as int)
            &&& c.customer_id as int == change_customer_id(data@)
            &&& c.ts as int == integer_column(cols.ts, i64::MIN as int, i64::MAX as int)
            &&& c.status@ == (match cols.status {
                Some(v) => v,
                None => seq![],
            })
            &&& (match c.amount_text {
                Some(a) => cols.amount == Some(a@),
                None => cols.amount is None,
            })
        },
{
    let text = chars_of(data);
    let table = chars_of("table public.orders:");
    let insert = chars_of("INSERT:");
    let update = chars_of("UPDATE:");
    let new_tuple = chars_of("new-tuple:");
    let has_table = find_from_exec(&text, &table, 0).is_some();
    if !has_table {
        return None;
    }
    let is_insert = find_from_exec(&text, &insert, 0).is_some();
    let is_update = find_from_exec(&text, &update, 0).is_some();
    if !is_insert && !is_update {
        return None;
    }
    let section = if is_insert {
        second_segment_exec(&text, &insert)
    } else {
        match second_segment_exec(&text, &new_tuple) {
            Some(r) => Some(r),
            None => second_segment_exec(&text, &update),
        }
    };
    let (lo, hi) = match section {
        None => {
            return None;
        },
        Some(r) => r,
    };
    let names = ColumnNames::new();
    let cols = apply_words(&text, lo, hi, &names);
    let customer_id = integer_text_i32(&cols.customer_id);
    if customer_id == 0 {
        return None;
    }
    let id = integer_text_i32(&cols.id);
    let ts = integer_text_i64(&cols.ts);
    let status = match &cols.status {
        Some(v) => string_from_chars(v),
        None => string_from_chars(&Vec::new()),
    };
    let amount_text = match &cols.amount {
        Some(v) => Some(string_from_chars(v)),
        None => None,
    };
    Some(CdcChange { id, customer_id, amount_text, status, ts })
}

// ---------------------------------------------------------------------------
// Connection settings

/// `host={host} port=5432 dbname=shop user={user} password={password}`.
pub open spec fn connection_config_text(host: Seq<char>, user: Seq<char>, password: Seq<char>) -> Seq<char> {
    "host="@ + host + " port=5432 dbname=shop user="@ + user + " password="@ + password
}

/// Connection string of the `shop` database.
pub fn connection_config(host: &str, user: &str, password: &str) -> (s: String)
    ensures
        s@ == connection_config_text(host@, user@, password@),
{
    let mut out: Vec<char> = Vec::new();
    push_str_chars(&mut out, "host=");
    push_str_chars(&mut out, host);
    push_str_chars(&mut out, " port=5432 dbname=shop user=");
    push_str_chars(&mut out, user);
    push_str_chars(&mut out, " password=");
    push_str_chars(&mut out, password);
    assert(out@ =~= connection_config_text(host@, user@, password@));
    string_from_chars(&out)
}

/// Statement creating the `orders_cdc` source over the `postgres-cdc`
/// connector (slot `laminar_orders`, publication `laminar_pub`, no snapshot).
pub open spec fn cdc_source_statement_text(host: Seq<char>, user: Seq<char>, password: Seq<char>) -> Seq<char> {
    "CREATE SOURCE orders_cdc (\n            id INT NOT NULL,\n            customer_id INT NOT NULL,\n            amount DOUBLE NOT NULL,\n            status VARCHAR NOT NULL,\n            ts BIGINT NOT NULL\n        ) FROM \"postgres-cdc\" (\n            'host' = '"@
        + host
        + "',\n            'port' = '5432',\n            'database' = 'shop',\n            'username' = '"@
        + user
        + "',\n            'password' = '"@
        + password
        + "',\n            'slot.name' = 'laminar_orders',\n            'publication' = 'laminar_pub',\n            'snapshot.mode' = 'never'\n        )"@
}

pub fn cdc_source_statement(host: &str, user: &str, password: &str) -> (s: String)
    ensures
        s@ == cdc_source_statement_text(host@, user@, password@),
{
    let mut out: Vec<char> = Vec::new();
    push_str_chars(&mut out, "CREATE SOURCE orders_cdc (\n            id INT NOT NULL,\n            customer_id INT NOT NULL,\n            amount DOUBLE NOT NULL,\n            status VARCHAR NOT NULL,\n            ts BIGINT NOT NULL\n        ) FROM \"postgres-cdc\" (\n            'host' = '");
    push_str_chars(&mut out, host);
    push_str_chars(&mut out, "',\n            'port' = '5432',\n            'database' = 'shop',\n            'username' = '");
    push_str_chars(&mut out, user);
    push_str_chars(&mut out, "',\n            'password' = '");
    push_str_chars(&mut out, password);
    push_str_chars(&mut out, "',\n            'slot.name' = 'laminar_orders',\n            'publication' = 'laminar_pub',\n            'snapshot.mode' = 'never'\n        )");
    assert(out@ =~= cdc_source_statement_text(host@, user@, password@));
    string_from_chars(&out)
}

} // verus!
