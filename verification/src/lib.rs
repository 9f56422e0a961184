//! An authentication gateway for a to-do backend.
//!
//! The gateway discovers an identity provider's signing-key endpoint,
//! resolves bearer tokens against the provider's published key set, and
//! hands verified identity claims to the handlers behind it.  Every
//! decision the gateway takes is a verified function of plain values; the
//! network and the web framework stay outside and feed it events.
//!
//! * [`discovery`]: where to ask for the provider's metadata, and what the
//!   answer means.
//! * [`keys`]: the provider's key set and the lookup by key id.
//! * [`extractor`]: the bearer token in a request's headers.
//! * [`token`], [`signature`], [`validator`]: the validation pipeline.
//! * [`body`], [`interceptor`], [`gateway`]: the interception of a
//!   request, with its body drained once and replayed.
//! * [`claims`], [`rejection`]: what validation returns.
//! * [`laws`]: what holds of all of it together.
//! * [`models`], [`users`], [`views`]: the records and pages of the
//!   backend behind the gateway.

pub mod json;
pub mod claims;
pub mod rejection;
pub mod token;
pub mod keys;
pub mod signature;
pub mod validator;
pub mod extractor;
pub mod body;
pub mod interceptor;
pub mod gateway;
pub mod discovery;
pub mod laws;
pub mod models;
pub mod users;
pub mod views;
