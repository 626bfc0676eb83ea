//! Incremental multi-variant diary mutation.
//!
//! A user keeps one source diary and one diary per style variant, each variant
//! a rewriting of the source by a text-transformation service. When the source
//! changes, only what was appended to it is sent to the service again, and
//! each variant is put together from the text it already had and what the
//! service made of the new part.
//!
//! The library decides and computes; it performs no input or output. Whoever
//! uses it loads and stores the diaries, calls the service, and reports back:
//!
//! - [`text`]: texts by their characters: trimming, prefixes, cuts.
//! - [`diary`], [`user`], [`error`]: the values of the domain.
//! - [`sanitize`]: cleaning a reply of the service.
//! - [`locate`]: how much of a new source is already known.
//! - [`transform`]: what is asked of the service, and what its reply means.
//! - [`reconcile`]: the next text of one variant.
//! - [`orchestrate`]: one mutation request from start to end, as a state
//!   machine whose actions are carried out outside.
//! - [`store`]: the stored form of a user and their diaries.
//! - [`json`]: a JSON document as far as the library reads one.
//! - [`service`]: mutating a text segment by segment.
//! - [`api`], [`auth`]: what requests carry and how results are reported.

pub mod api;
pub mod auth;
pub mod diary;
pub mod error;
pub mod json;
pub mod locate;
pub mod orchestrate;
pub mod reconcile;
pub mod sanitize;
pub mod service;
pub mod store;
pub mod text;
pub mod transform;
pub mod user;
