//! A typed client library for the Modrinth search API, verified with Verus.
//!
//! The core is an auto-paginating result stream over a page-based search
//! endpoint (`pagination`), the decode pipeline that turns raw HTTP
//! responses into typed pages with exact field-path errors (`decode`,
//! `json`), a query encoder that renders search parameters as a URL query
//! string (`query_string`, `params`), and a reversible base-62 codec for
//! resource identifiers (`base62`). The `endpoints` module builds the
//! relative request URLs; transport lives outside the library, which hands
//! drivers the requests to make and consumes their outcomes.

pub mod base62;
pub mod decode;
pub mod endpoints;
pub mod json;
pub mod json_string;
pub mod pagination;
pub mod params;
pub mod query_string;
pub mod response;
pub mod text;
pub mod types;
