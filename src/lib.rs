//! A verified core for a session-authenticated bookkeeping web server:
//! the error taxonomy and its responder, request ingestion, path routing,
//! and the decisions of the OpenID Connect login flow.
pub mod text;
pub mod number;
pub mod http;
pub mod error;
pub mod respond;
pub mod request;
pub mod body;
pub mod form;
pub mod route;
pub mod auth;
pub mod conflict;
pub mod records;
pub mod pages;
pub mod grouping;
pub mod submission;
