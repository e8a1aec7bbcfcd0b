//! Core of a small bulletin-board service: two symmetric entry kinds
//! ("offers" and "requests") are listed, created, and deleted, plus
//! site-wide notices shown on selected pages.  Access is gated behind
//! HTTP Basic authentication with a shared user credential and a separate
//! administrator credential.
//!
//! The library holds the request-authorization pipeline and the generic
//! entry/notice data-access layer: authentication predicates, a per-request
//! capability cache, the kind descriptor, notice position sets, statement
//! building with storage escaping, and row decoding with fragment
//! rendering.  The HTTP server, the SQL driver, and page templating are
//! external collaborators: they hand the library plain values (header
//! fields, form fields, fetched rows) and execute the statements it
//! returns.

pub mod auth;
pub mod caps;
pub mod db;
pub mod entry;
pub mod escape;
pub mod notice;
pub mod repo;
pub mod text;
