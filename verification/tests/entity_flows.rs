//! The entity call-sites: the request each one builds, and how each one
//! reads the rows a server hands back.

use supabasic::client::{Supabase, Verb};
use supabasic::entities::{any_rows, created_entity_id, first_row, Entity};
use supabasic::error::SupabasicError;
use supabasic::json::decode_value;

fn client() -> Supabase {
    Supabase::new("http://localhost:54321", "test-api-key")
}

fn row(id: &str, name: Option<&str>, deleted_at: Option<&str>) -> Entity {
    Entity {
        id: id.to_owned(),
        name: name.map(|s| s.to_owned()),
        category_id: None,
        created_at: None,
        updated_at: None,
        deleted_at: deleted_at.map(|s| s.to_owned()),
    }
}

#[test]
fn create_entity_builds_insert_with_projection() {
    let c = client();
    let req = c.create_entity_query("x").build_request();
    assert_eq!(req.verb, Verb::Post);
    assert_eq!(req.url, "http://localhost:54321/rest/v1/entities?select=id, name");
    assert_eq!(req.body.as_deref(), Some("[{\"name\":\"x\"}]"));
}

#[test]
fn create_entity_payload_escapes_the_name() {
    let c = client();
    let req = c.create_entity_query("a\"b\\c").build_request();
    assert_eq!(req.body.as_deref(), Some("[{\"name\":\"a\\\"b\\\\c\"}]"));
}

#[test]
fn create_entity_reads_the_returned_row() {
    // A server answering the insert with one created row.
    let body = "[{\"id\":\"8f9e0c62-5bd3-4c52-b3a8-014b55183841\",\"name\":\"x\"}]";
    let value = decode_value(body).unwrap();
    // The typed decoding the transport layer would do, spelled out.
    let rows: Vec<Entity> = value
        .as_array()
        .unwrap()
        .iter()
        .map(|v| {
            row(
                v.get("id").unwrap().as_str().unwrap(),
                v.get("name").and_then(|n| n.as_str()),
                None,
            )
        })
        .collect();
    let id = created_entity_id(rows).unwrap();
    assert_eq!(id, "8f9e0c62-5bd3-4c52-b3a8-014b55183841");
}

#[test]
fn create_entity_with_no_row_is_a_domain_error() {
    let err = created_entity_id(Vec::new()).unwrap_err();
    assert!(err.is_other());
    assert!(matches!(err, SupabasicError::Other(m) if m == "No entity returned"));
}

#[test]
fn fetch_entities_filters_out_deleted() {
    let c = client();
    let req = c.fetch_entities_query().build_request();
    assert_eq!(req.verb, Verb::Get);
    assert_eq!(
        req.url,
        "http://localhost:54321/rest/v1/entities?select=id, name, category_id, created_at, \
         updated_at, deleted_at&deleted_at=is.null"
    );
    assert!(req.body.is_none());
}

#[test]
fn fetch_by_id_builds_both_filters() {
    let c = client();
    let b = c.fetch_entity_by_id_query("8f9e0c62-5bd3-4c52-b3a8-014b55183841");
    assert_eq!(
        b.query,
        "?select=id, name, category_id, created_at, updated_at, deleted_at\
         &id=eq.8f9e0c62-5bd3-4c52-b3a8-014b55183841&deleted_at=is.null"
    );
}

#[test]
fn fetch_by_id_on_empty_answer_is_none_not_error() {
    // A server answering `[]`: no row matched, which is not an error.
    let body = "[]";
    let value = decode_value(body).unwrap();
    let rows: Vec<Entity> =
        value.as_array().unwrap().iter().map(|_| row("", None, None)).collect();
    assert!(rows.is_empty());
    assert!(first_row(rows).is_none());
}

#[test]
fn first_row_takes_the_first() {
    let rows = vec![row("a", Some("one"), None), row("b", Some("two"), None)];
    let first = first_row(rows).unwrap();
    assert_eq!(first.id, "a");
    assert_eq!(first.name.as_deref(), Some("one"));
}

#[test]
fn soft_delete_builds_update_with_projection() {
    let c = client();
    let req = c.soft_delete_entity_query("8f9e0c62-5bd3-4c52-b3a8-014b55183841").build_request();
    assert_eq!(req.verb, Verb::Patch);
    // The closing `select` overwrote the id filter, as the call-site
    // chain has it.
    assert_eq!(req.url, "http://localhost:54321/rest/v1/entities?select=id, deleted_at");
    let sent = req.body.unwrap();
    assert!(sent.starts_with("{\"deleted_at\":\""));
    assert!(sent.ends_with("\"}"));
}

#[test]
fn soft_delete_succeeded_exactly_when_rows_came_back() {
    assert!(any_rows(&vec![row("a", None, Some("2024-01-01T00:00:00Z"))]));
    assert!(!any_rows(&Vec::new()));
}
