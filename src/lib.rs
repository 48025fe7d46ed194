//! A client for a business-application server that speaks JSON-RPC.
//!
//! The library builds the request envelopes, keeps the session state and
//! decodes the replies; the HTTP exchange itself is made by the caller.
pub mod api;
pub mod error;
pub mod json;
pub mod nullable;
pub mod odoo;
