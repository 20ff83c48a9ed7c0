//! Per-request action dispatch for an in-proxy policy filter.
//!
//! The crate holds the decisions of the filter: which action set a request's
//! authority selects, which policy service is called next, how a service's
//! verdict becomes header mutations or a direct response, and how the filter
//! moves between its states across the host's callbacks. The host side performs
//! the effects that the filter asks for and hands back what it observed.
//!
//! - [`configuration`] and [`service`]: the settings of a policy service, the
//!   descriptors of a call and of a direct response, the tracing headers.
//! - [`authority`] and [`action_set_index`]: the authority of a request, the
//!   patterns, and the lookup of the most specific match.
//! - [`runtime_action`] and [`runtime_action_set`]: one policy step and the
//!   walk through the steps of a set.
//! - [`headers`]: header mutations and their merging.
//! - [`filter`]: the pending operations, the state machine, and what it
//!   guarantees.
//! - [`data`]: attributes of the request and the metadata stored in them.

pub mod action_set_index;
pub mod authority;
pub mod configuration;
pub mod data;
pub mod filter;
pub mod headers;
pub mod runtime_action;
pub mod runtime_action_set;
pub mod service;
