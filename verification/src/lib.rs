//! Client library for a search engine's paginated scroll API: a credential
//! formatter producing HTTP Basic authorization header values, and a
//! pull-based scroll-pagination state machine that decides when to fetch the
//! first or a continuation page, installs fetched pages, and detects
//! exhaustion.

pub mod auth;
pub mod scroll;
