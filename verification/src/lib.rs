//! Core of a persistent counter and gauge service.
//!
//! Clients name numeric entities and step them up or down. This crate holds
//! the rules of that service as verified code: which identifiers are
//! acceptable, how an entity store answers creation, lookup and stepping,
//! how a stored value is rendered in each wire format, and which response
//! each request receives.
//!
//! * [`ident`] decides which texts may name an entity and draws fresh names.
//! * [`entity`] describes a stored record; [`counter`] and [`gauge`] give
//!   the two kinds of record a type each.
//! * [`engine`] decides what each answer of a storage engine means, and
//!   [`store`] is such an engine, held in memory.
//! * [`render`] and [`decimal`] turn an entity into the content of a
//!   response, and [`response`] is that response as a plain value.
//! * [`service`] plans requests and concludes them into responses.
//! * [`laws`] states what holds of every store, whatever was done to it.

mod clock;
pub mod counter;
pub mod decimal;
pub mod engine;
pub mod entity;
pub mod error;
pub mod gauge;
pub mod ident;
pub mod laws;
pub mod render;
pub mod response;
pub mod service;
pub mod store;
pub mod text;
