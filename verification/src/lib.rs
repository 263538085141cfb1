//! A small client library for PostgREST-style REST APIs: a chainable
//! request builder that accumulates filters and an operation kind, and
//! encodes them into a URL query string, an HTTP verb, headers and an
//! optional JSON body.

pub mod client;
pub mod entities;
pub mod error;
pub mod json;
pub mod parse;
pub mod query;

pub use client::Supabase;
pub use entities::Entity;
pub use error::SupabasicError;

