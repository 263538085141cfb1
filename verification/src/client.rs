//! The client and the request builder: a chain of configuration calls
//! accumulates a table, a query string, an operation kind and an optional
//! payload, and is finalized into one HTTP request description.

use vstd::prelude::*;
use vstd::string::*;
use crate::query::{
    amp_joined, applied_filters, clause_chars, clause_of, clause_spec,
    lemma_applied_filters_from_empty, lemma_encoded_query_shape, query_append, select_query,
    FilterOp, FilterSpec,
};

verus! {

#[verifier::external_type_specification]
#[verifier::external_body]
pub struct ExClient(reqwest::Client);

/// Relies on reqwest::Client::new: builds the shared HTTP transport
/// handle the client owns. Nothing is stated of the opaque handle.
#[verifier::external_body]
fn new_http_client() -> reqwest::Client {
    reqwest::Client::new()
}

/// The root client: base URL, API key, and the shared transport handle.
/// Immutable after construction; each request starts from `from`.
pub struct Supabase {
    pub url: String,
    pub api_key: String,
    pub http: reqwest::Client,
}

/// Which CRUD action a terminal execute performs.
#[derive(Clone, Copy, Debug, PartialEq, Eq, Structural)]
pub enum Method {
    Select,
    Insert,
    Update,
    Delete,
}

/// The HTTP verb a request goes out with.
#[derive(Clone, Copy, Debug, PartialEq, Eq, Structural)]
pub enum Verb {
    Get,
    Post,
    Patch,
    Delete,
}

/// The verb each operation kind maps to.
pub open spec fn verb_of(m: Method) -> Verb {
    match m {
        Method::Select => Verb::Get,
        Method::Insert => Verb::Post,
        Method::Update => Verb::Patch,
        Method::Delete => Verb::Delete,
    }
}

/// One HTTP header, name and value.
pub struct Header {
    pub name: String,
    pub value: String,
}

/// Everything the transport needs to send one request: target URL, verb,
/// headers, and the optional JSON body.
pub struct HttpRequest {
    pub url: String,
    pub verb: Verb,
    pub headers: Vec<Header>,
    pub body: Option<String>,
}

/// A single-use request builder: created by `Supabase::from`, mutated by
/// each chained call, consumed by `build_request`.
pub struct QueryBuilder<'a> {
    pub client: &'a Supabase,
    pub table: String,
    pub query: String,
    pub method: Method,
    pub payload: Option<String>,
    /// What the query string was last set to wholesale: empty at
    /// creation, the select text after each select.
    pub query_base: Ghost<Seq<char>>,
    /// The filter calls made since the base was last set, in order.
    pub filters: Ghost<Seq<FilterSpec>>,
}

impl Supabase {
    /// A client for the API at `url`, authenticating with `api_key`.
    pub fn new(url: &str, api_key: &str) -> (r: Supabase)
        ensures
            r.url@ == url@,
            r.api_key@ == api_key@,
    {
        Supabase { url: url.to_owned(), api_key: api_key.to_owned(), http: new_http_client() }
    }

    /// A fresh builder against `table`: empty query, Select kind, no
    /// payload.
    pub fn from<'a>(&'a self, table: &str) -> (r: QueryBuilder<'a>)
        ensures
            r.client == self,
            r.table@ == table@,
            r.query@ == Seq::<char>::empty(),
            r.method == Method::Select,
            r.payload is None,
            r.query_base@ == Seq::<char>::empty(),
            r.filters@ == Seq::<FilterSpec>::empty(),
            r.query_wf(),
    {
        QueryBuilder {
            client: self,
            table: table.to_owned(),
            query: String::new(),
            method: Method::Select,
            payload: None,
            query_base: Ghost(Seq::empty()),
            filters: Ghost(Seq::empty()),
        }
    }
}

impl<'a> QueryBuilder<'a> {
    /// The builder's standing invariant: its query string is always its
    /// base extended by its recorded filter calls, in order.
    pub open spec fn query_wf(self) -> bool {
        self.query@ == applied_filters(self.query_base@, self.filters@)
    }

    /// Sets the query string to exactly `?select=<fields>`, discarding
    /// whatever was accumulated before. Only the query string changes:
    /// the operation kind is untouched, so a `select` after `insert` or
    /// `update` keeps that kind and merely asks for a column projection
    /// of the affected rows. A builder starts in the Select kind, so on
    /// a fresh chain `select` also means a read.
    pub fn select(self, fields: &str) -> (r: QueryBuilder<'a>)
        ensures
            r.method == self.method,
            r.query@ == select_query(fields@),
            r.client == self.client,
            r.table == self.table,
            r.payload == self.payload,
            r.query_base@ == select_query(fields@),
            r.filters@ == Seq::<FilterSpec>::empty(),
            r.query_wf(),
    {
        let mut q = String::from_str("?select=");
        q.append(fields);
        QueryBuilder {
            query: q,
            query_base: Ghost(select_query(fields@)),
            filters: Ghost(Seq::empty()),
            ..self
        }
    }

    /// Sets the operation kind to Insert and stores the payload; the
    /// query string is kept, so a later `select` can still ask for a
    /// column projection of the inserted rows.
    pub fn insert(self, json: String) -> (r: QueryBuilder<'a>)
        ensures
            r.method == Method::Insert,
            r.payload == Some(json),
            r.query == self.query,
            r.client == self.client,
            r.table == self.table,
            r.query_base == self.query_base,
            r.filters == self.filters,
    {
        QueryBuilder { method: Method::Insert, payload: Some(json), ..self }
    }

    /// Sets the operation kind to Update and stores the payload.
    pub fn update(self, json: String) -> (r: QueryBuilder<'a>)
        ensures
            r.method == Method::Update,
            r.payload == Some(json),
            r.query == self.query,
            r.client == self.client,
            r.table == self.table,
            r.query_base == self.query_base,
            r.filters == self.filters,
    {
        QueryBuilder { method: Method::Update, payload: Some(json), ..self }
    }

    /// Sets the operation kind to Delete; any stored payload stays but is
    /// ignored when the request is built.
    pub fn delete(self) -> (r: QueryBuilder<'a>)
        ensures
            r.method == Method::Delete,
            r.payload == self.payload,
            r.query == self.query,
            r.client == self.client,
            r.table == self.table,
            r.query_base == self.query_base,
            r.filters == self.filters,
    {
        QueryBuilder { method: Method::Delete, ..self }
    }

    /// Appends the clause `column=eq.value` to the query string.
    pub fn eq(self, column: &str, value: &str) -> (r: QueryBuilder<'a>)
        ensures
            r.query@ == query_append(self.query@, clause_chars(column@, FilterOp::Eq, value@)),
            r.method == self.method,
            r.payload == self.payload,
            r.client == self.client,
            r.table == self.table,
            r.query_base == self.query_base,
            r.filters@ == self.filters@.push(
                FilterSpec { col: column@, op: FilterOp::Eq, val: value@ },
            ),
            self.query_wf() ==> r.query_wf(),
    {
        self.add_filter(
            clause_of(column, FilterOp::Eq, value),
            Ghost(FilterSpec { col: column@, op: FilterOp::Eq, val: value@ }),
        )
    }

    /// Appends the clause `column=gt.value` to the query string.
    pub fn gt(self, column: &str, value: &str) -> (r: QueryBuilder<'a>)
        ensures
            r.query@ == query_append(self.query@, clause_chars(column@, FilterOp::Gt, value@)),
            r.method == self.method,
            r.payload == self.payload,
            r.client == self.client,
            r.table == self.table,
            r.query_base == self.query_base,
            r.filters@ == self.filters@.push(
                FilterSpec { col: column@, op: FilterOp::Gt, val: value@ },
            ),
            self.query_wf() ==> r.query_wf(),
    {
        self.add_filter(
            clause_of(column, FilterOp::Gt, value),
            Ghost(FilterSpec { col: column@, op: FilterOp::Gt, val: value@ }),
        )
    }

    /// Appends the clause `column=lt.value` to the query string.
    pub fn lt(self, column: &str, value: &str) -> (r: QueryBuilder<'a>)
        ensures
            r.query@ == query_append(self.query@, clause_chars(column@, FilterOp::Lt, value@)),
            r.method == self.method,
            r.payload == self.payload,
            r.client == self.client,
            r.table == self.table,
            r.query_base == self.query_base,
            r.filters@ == self.filters@.push(
                FilterSpec { col: column@, op: FilterOp::Lt, val: value@ },
            ),
            self.query_wf() ==> r.query_wf(),
    {
        self.add_filter(
            clause_of(column, FilterOp::Lt, value),
            Ghost(FilterSpec { col: column@, op: FilterOp::Lt, val: value@ }),
        )
    }

    /// Appends the clause `column=is.null` to the query string: the rows
    /// whose `column` is null.
    pub fn is_null(self, column: &str) -> (r: QueryBuilder<'a>)
        ensures
            r.query@ == query_append(self.query@, clause_chars(column@, FilterOp::Is, "null"@)),
            r.method == self.method,
            r.payload == self.payload,
            r.client == self.client,
            r.table == self.table,
            r.query_base == self.query_base,
            r.filters@ == self.filters@.push(
                FilterSpec { col: column@, op: FilterOp::Is, val: "null"@ },
            ),
            self.query_wf() ==> r.query_wf(),
    {
        self.add_filter(
            clause_of(column, FilterOp::Is, "null"),
            Ghost(FilterSpec { col: column@, op: FilterOp::Is, val: "null"@ }),
        )
    }

    /// Appends one ready clause: the first gets the `?` prefix, later
    /// ones are joined with `&`.
    fn add_filter(self, filter: String, f: Ghost<FilterSpec>) -> (r: QueryBuilder<'a>)
        requires
            filter@ == clause_spec(f@),
        ensures
            r.query@ == query_append(self.query@, filter@),
            r.method == self.method,
            r.payload == self.payload,
            r.client == self.client,
            r.table == self.table,
            r.query_base == self.query_base,
            r.filters@ == self.filters@.push(f@),
            self.query_wf() ==> r.query_wf(),
    {
        let mut q = self.query;
        if q.as_str().is_empty() {
            let mut p = String::from_str("?");
            p.append(filter.as_str());
            q = p;
        } else {
            q.append("&");
            q.append(filter.as_str());
            proof {
                assert(q@ =~= query_append(self.query@, filter@));
            }
        }
        proof {
            assert(self.filters@.push(f@).drop_last() =~= self.filters@);
            assert(self.filters@.push(f@).last() == f@);
        }
        QueryBuilder { query: q, filters: Ghost(self.filters@.push(f@)), ..self }
    }

    /// Finalizes the accumulated state into one request description:
    /// the URL is `<base>/rest/v1/<table><query>`, the verb follows the
    /// operation kind, Insert and Update carry the stored payload as the
    /// body and the other kinds carry none, and the three required
    /// headers hold the configured key.
    pub fn build_request(self) -> (r: HttpRequest)
        ensures
            r.url@ == self.client.url@ + "/rest/v1/"@ + self.table@ + self.query@,
            r.verb == verb_of(self.method),
            self.method == Method::Insert || self.method == Method::Update ==> r.body
                == self.payload,
            self.method == Method::Select || self.method == Method::Delete ==> r.body is None,
            r.headers@.len() == 3,
            r.headers@[0].name@ == "apikey"@,
            r.headers@[0].value@ == self.client.api_key@,
            r.headers@[1].name@ == "Authorization"@,
            r.headers@[1].value@ == "Bearer "@ + self.client.api_key@,
            r.headers@[2].name@ == "Content-Type"@,
            r.headers@[2].value@ == "application/json"@,
    {
        let QueryBuilder { client, table, query, method, payload, .. } = self;
        let mut url = client.url.clone();
        url.append("/rest/v1/");
        url.append(table.as_str());
        url.append(query.as_str());
        proof {
            assert(url@ =~= self.client.url@ + "/rest/v1/"@ + self.table@ + self.query@);
        }
        let verb = match method {
            Method::Select => Verb::Get,
            Method::Insert => Verb::Post,
            Method::Update => Verb::Patch,
            Method::Delete => Verb::Delete,
        };
        let body = match method {
            Method::Insert => payload,
            Method::Update => payload,
            Method::Select => None,
            Method::Delete => None,
        };
        let mut bearer = String::from_str("Bearer ");
        bearer.append(client.api_key.as_str());
        let mut headers: Vec<Header> = Vec::new();
        headers.push(Header { name: String::from_str("apikey"), value: client.api_key.clone() });
        headers.push(Header { name: String::from_str("Authorization"), value: bearer });
        headers.push(
            Header {
                name: String::from_str("Content-Type"),
                value: String::from_str("application/json"),
            },
        );
        HttpRequest { url, verb, headers, body }
    }
}

/// Every builder whose query string was built by filter calls alone —
/// any number of them, in any order, with no select — holds a query that
/// begins with `?` and joins its recorded clauses with `&`, in call
/// order.
pub proof fn lemma_builder_query_shape<'a>(b: QueryBuilder<'a>)
    requires
        b.query_wf(),
        b.query_base@ == Seq::<char>::empty(),
        b.filters@.len() > 0,
    ensures
        b.query@ == "?"@ + amp_joined(b.filters@),
        b.query@.len() > 0,
        b.query@[0] == '?',
{
    lemma_applied_filters_from_empty(b.filters@);
    lemma_encoded_query_shape(b.filters@);
}

} // verus!
