//! The builder's query-string accumulation and request finalization.

use supabasic::client::{Method, Supabase, Verb};
use supabasic::query::FilterOp;

fn client() -> Supabase {
    Supabase::new("http://localhost:54321", "test-api-key")
}

#[test]
fn filters_join_in_call_order() {
    let c = client();
    let b = c.from("people").eq("id", "1").gt("age", "3");
    assert_eq!(b.query, "?id=eq.1&age=gt.3");
}

#[test]
fn single_filter_gets_question_mark() {
    let c = client();
    let b = c.from("people").lt("age", "99");
    assert_eq!(b.query, "?age=lt.99");
}

#[test]
fn is_null_filter_uses_is_operator() {
    let c = client();
    let b = c.from("people").is_null("deleted_at");
    assert_eq!(b.query, "?deleted_at=is.null");
}

#[test]
fn duplicate_filters_are_kept() {
    let c = client();
    let b = c.from("people").eq("id", "1").eq("id", "2");
    assert_eq!(b.query, "?id=eq.1&id=eq.2");
}

#[test]
fn select_first_sets_exact_query() {
    let c = client();
    let b = c.from("people").select("id,name");
    assert_eq!(b.query, "?select=id,name");
    assert!(matches!(b.method, Method::Select));
}

#[test]
fn select_after_filters_discards_them() {
    let c = client();
    let b = c.from("people").eq("id", "1").gt("age", "3").select("id");
    assert_eq!(b.query, "?select=id");
}

#[test]
fn filters_after_select_append() {
    let c = client();
    let b = c.from("people").select("id").eq("id", "7");
    assert_eq!(b.query, "?select=id&id=eq.7");
}

#[test]
fn operation_kind_determines_verb() {
    let payload = "{\"a\":1}";
    let c = client();
    assert_eq!(c.from("t").build_request().verb, Verb::Get);
    assert_eq!(c.from("t").select("x").build_request().verb, Verb::Get);
    assert_eq!(c.from("t").insert(payload.to_string()).build_request().verb, Verb::Post);
    assert_eq!(c.from("t").update(payload.to_string()).build_request().verb, Verb::Patch);
    assert_eq!(c.from("t").delete().build_request().verb, Verb::Delete);
}

#[test]
fn insert_and_update_carry_body_verbatim() {
    let text = "[{\"name\":\"x\",\"n\":3}]";
    let c = client();
    let req = c.from("t").insert(text.to_string()).build_request();
    assert_eq!(req.body.as_deref(), Some(text));
    let req = c.from("t").update(text.to_string()).build_request();
    assert_eq!(req.body.as_deref(), Some(text));
}

#[test]
fn select_and_delete_carry_no_body() {
    let c = client();
    let req = c.from("t").select("id").build_request();
    assert!(req.body.is_none());
    let req = c.from("t").delete().build_request();
    assert!(req.body.is_none());
}

#[test]
fn every_request_carries_the_three_headers() {
    let c = client();
    let req = c.from("people").eq("id", "1").build_request();
    assert_eq!(req.headers.len(), 3);
    assert_eq!(req.headers[0].name, "apikey");
    assert_eq!(req.headers[0].value, "test-api-key");
    assert_eq!(req.headers[1].name, "Authorization");
    assert_eq!(req.headers[1].value, "Bearer test-api-key");
    assert_eq!(req.headers[2].name, "Content-Type");
    assert_eq!(req.headers[2].value, "application/json");
}

#[test]
fn url_is_base_rest_table_query() {
    let c = client();
    let req = c.from("people").eq("id", "1").build_request();
    assert_eq!(req.url, "http://localhost:54321/rest/v1/people?id=eq.1");
    let req = c.from("people").build_request();
    assert_eq!(req.url, "http://localhost:54321/rest/v1/people");
}

#[test]
fn clause_of_builds_one_clause() {
    assert_eq!(supabasic::query::clause_of("age", FilterOp::Gt, "30"), "age=gt.30");
}
