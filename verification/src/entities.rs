//! The entity call-sites over the builder: the request chain each one
//! sends, and how each one reads the rows that come back. Sending itself
//! is the transport's work and happens outside this crate.

use vstd::prelude::*;
use vstd::string::*;
use crate::client::{Method, QueryBuilder, Supabase};
use crate::error::SupabasicError;
use crate::query::{clause_chars, query_append, select_query, FilterOp};

verus! {

/// One row of the entities table, as the plain values this library
/// reads of it: the id and the timestamps in their wire text.
#[derive(Debug, PartialEq, Eq)]
pub struct Entity {
    pub id: String,
    pub name: Option<String>,
    pub category_id: Option<String>,
    pub created_at: Option<String>,
    pub updated_at: Option<String>,
    pub deleted_at: Option<String>,
}

/// The JSON text that encodes a text as a JSON string: quoted, with the
/// escapes serde_json chooses.
pub uninterp spec fn json_string_of(s: Seq<char>) -> Seq<char>;

/// Relies on serde_json::to_string::<&str>: encodes a text as a JSON
/// string, quoting and escaping it. Encoding a string cannot fail.
#[verifier::external_body]
fn json_quote(s: &str) -> (r: String)
    ensures
        r@ == json_string_of(s@),
{
    match serde_json::to_string(s) {
        Ok(t) => t,
        Err(_) => String::new(),
    }
}

/// Relies on chrono::Utc::now and serde_json::to_string: the present
/// moment, encoded as the text of a JSON value. The result depends on
/// the clock, so nothing is stated of it. chrono panics if the system
/// clock reads before the Unix epoch; that is environmental, not a
/// function of any input.
#[verifier::external_body]
fn now_timestamp_json() -> String {
    match serde_json::to_string(&chrono::Utc::now()) {
        Ok(t) => t,
        Err(_) => String::new(),
    }
}

/// The JSON text of the payload that creates one entity: an array of one
/// object with a single name field.
pub open spec fn create_entity_payload(name: Seq<char>) -> Seq<char> {
    "[{\"name\":"@ + json_string_of(name) + "}]"@
}

/// The JSON text of a soft-delete payload: one object with a single
/// deleted_at field holding the text `t` of a timestamp.
pub open spec fn soft_delete_payload(t: Seq<char>) -> Seq<char> {
    "{\"deleted_at\":"@ + t + "}"@
}

/// The column list the entity fetches project.
pub open spec fn entity_columns() -> Seq<char> {
    "id, name, category_id, created_at, updated_at, deleted_at"@
}

impl Supabase {
    /// The request chain that creates an entity: insert one row with the
    /// given name into `entities`, projecting id and name of the result.
    pub fn create_entity_query(&self, name: &str) -> (r: QueryBuilder<'_>)
        ensures
            r.client == self,
            r.table@ == "entities"@,
            r.method == Method::Insert,
            (r.payload matches Some(p) && p@ == create_entity_payload(name@)),
            r.query@ == select_query("id, name"@),
    {
        let mut payload = String::from_str("[{\"name\":");
        payload.append(json_quote(name).as_str());
        payload.append("}]");
        proof {
            assert(payload@ =~= create_entity_payload(name@));
        }
        self.from("entities").insert(payload).select("id, name")
    }

    /// The request chain that fetches all active entities: select the
    /// entity columns where `deleted_at` is null.
    pub fn fetch_entities_query(&self) -> (r: QueryBuilder<'_>)
        ensures
            r.client == self,
            r.table@ == "entities"@,
            r.method == Method::Select,
            r.payload is None,
            r.query@ == query_append(
                select_query(entity_columns()),
                clause_chars("deleted_at"@, FilterOp::Is, "null"@),
            ),
    {
        self.from("entities").select(
            "id, name, category_id, created_at, updated_at, deleted_at",
        ).is_null("deleted_at")
    }

    /// The request chain that fetches one entity by id, active only:
    /// select the entity columns where `id` equals the given id and
    /// `deleted_at` is null.
    pub fn fetch_entity_by_id_query(&self, id: &str) -> (r: QueryBuilder<'_>)
        ensures
            r.client == self,
            r.table@ == "entities"@,
            r.method == Method::Select,
            r.payload is None,
            r.query@ == query_append(
                query_append(
                    select_query(entity_columns()),
                    clause_chars("id"@, FilterOp::Eq, id@),
                ),
                clause_chars("deleted_at"@, FilterOp::Is, "null"@),
            ),
    {
        self.from("entities").select(
            "id, name, category_id, created_at, updated_at, deleted_at",
        ).eq("id", id).is_null("deleted_at")
    }

    /// The request chain that fetches one entity by id, deleted ones
    /// included: select the entity columns where `id` equals the given
    /// id.
    pub fn fetch_entity_raw_by_id_query(&self, id: &str) -> (r: QueryBuilder<'_>)
        ensures
            r.client == self,
            r.table@ == "entities"@,
            r.method == Method::Select,
            r.payload is None,
            r.query@ == query_append(
                select_query(entity_columns()),
                clause_chars("id"@, FilterOp::Eq, id@),
            ),
    {
        self.from("entities").select(
            "id, name, category_id, created_at, updated_at, deleted_at",
        ).eq("id", id)
    }

    /// The request chain that soft-deletes an entity: update the row
    /// whose `id` equals the given id, setting `deleted_at` to now, and
    /// project id and deleted_at of the result. The `select` runs last,
    /// so it overwrites the accumulated `id=eq.<id>` filter — the chain
    /// is kept exactly as the call-site wrote it.
    pub fn soft_delete_entity_query(&self, id: &str) -> (r: QueryBuilder<'_>)
        ensures
            r.client == self,
            r.table@ == "entities"@,
            r.method == Method::Update,
            (r.payload matches Some(p) && exists|t: Seq<char>| p@ == soft_delete_payload(t)),
            r.query@ == select_query("id, deleted_at"@),
    {
        let now = now_timestamp_json();
        let mut payload = String::from_str("{\"deleted_at\":");
        payload.append(now.as_str());
        payload.append("}");
        proof {
            assert(payload@ =~= soft_delete_payload(now@));
        }
        self.from("entities").update(payload).eq("id", id).select("id, deleted_at")
    }
}

/// The id of the row an entity-creating request returned: the first
/// row's id, or the descriptive error when no row came back.
pub fn created_entity_id(rows: Vec<Entity>) -> (r: Result<String, SupabasicError>)
    ensures
        rows@.len() > 0 ==> r == Ok::<String, SupabasicError>(rows@[0].id),
        rows@.len() == 0 ==> (r matches Err(e) && e matches SupabasicError::Other(m) && m@
            == "No entity returned"@),
{
    if rows.len() > 0 {
        Ok(rows[0].id.clone())
    } else {
        Err(SupabasicError::other("No entity returned"))
    }
}

/// The first row of a response, if any: an empty response is no error,
/// it is simply no row.
pub fn first_row(rows: Vec<Entity>) -> (r: Option<Entity>)
    ensures
        rows@.len() > 0 ==> r == Some(rows@[0]),
        rows@.len() == 0 ==> r is None,
{
    if rows.len() > 0 {
        let mut rs = rows;
        Some(rs.remove(0))
    } else {
        None
    }
}

/// Whether a soft delete touched anything: true exactly when at least
/// one row came back.
pub fn any_rows(rows: &Vec<Entity>) -> (r: bool)
    ensures
        r == (rows@.len() > 0),
{
    rows.len() > 0
}

} // verus!
