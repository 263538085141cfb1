//! Encoding a filter chain and decoding the query string again gives
//! the same clause set, as a mock server echoing the query would see it.

use supabasic::client::Supabase;
use supabasic::parse::parse_query_str;
use supabasic::query::{Filter, FilterOp};

fn client() -> Supabase {
    Supabase::new("http://localhost:54321", "test-api-key")
}

fn filter(column: &str, op: FilterOp, value: &str) -> Filter {
    Filter { column: column.to_owned(), op, value: value.to_owned() }
}

#[test]
fn decoding_an_encoded_chain_reproduces_the_clauses() {
    let c = client();
    let b = c.from("people").eq("id", "1").gt("age", "3").lt("age", "90").is_null("deleted_at");
    // The query string is what a mock server echoing the request would
    // hand back; decoding it must reproduce the clause set.
    let echoed = b.query.clone();
    let decoded = parse_query_str(&echoed).unwrap();
    let expected = vec![
        filter("id", FilterOp::Eq, "1"),
        filter("age", FilterOp::Gt, "3"),
        filter("age", FilterOp::Lt, "90"),
        filter("deleted_at", FilterOp::Is, "null"),
    ];
    assert_eq!(decoded, expected);
}

#[test]
fn decoding_a_single_clause_chain() {
    let c = client();
    let b = c.from("people").eq("id", "abc-def");
    let decoded = parse_query_str(&b.query).unwrap();
    assert_eq!(decoded, vec![filter("id", FilterOp::Eq, "abc-def")]);
}

#[test]
fn empty_value_round_trips() {
    let c = client();
    let b = c.from("people").eq("name", "");
    let decoded = parse_query_str(&b.query).unwrap();
    assert_eq!(decoded, vec![filter("name", FilterOp::Eq, "")]);
}

#[test]
fn value_with_dots_and_equals_round_trips() {
    let c = client();
    let b = c.from("people").eq("note", "a=b.c");
    let decoded = parse_query_str(&b.query).unwrap();
    assert_eq!(decoded, vec![filter("note", FilterOp::Eq, "a=b.c")]);
}

#[test]
fn malformed_queries_decode_to_nothing() {
    assert!(parse_query_str("").is_none());
    assert!(parse_query_str("id=eq.1").is_none());
    assert!(parse_query_str("?id").is_none());
    assert!(parse_query_str("?id=zz.1").is_none());
    assert!(parse_query_str("?id=eq1").is_none());
    assert!(parse_query_str("?id=eq.1&").is_none());
}
