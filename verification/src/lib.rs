//! Client logic for the spoo.me URL-shortening service.
//!
//! The crate holds everything that can be decided without touching the
//! network: validation of request fields, the form and address of each
//! operation, and the classification of a reply into a typed error.
//!
//! - [`utils`]: the validators for passwords, URLs, aliases and click limits.
//! - [`requests`]: the requests with their builders and forms, and the
//!   responses.
//! - [`errors`]: validation errors, service errors and errors of the
//!   exchange, with their messages.
//! - [`client`]: what to submit for a request, and what error a reply stands
//!   for.
//! - [`text`]: substring search and decimal numerals on sequences of
//!   characters.
//! - [`bindings`]: the calls into code that is not verified here.

pub mod bindings;
pub mod client;
pub mod errors;
pub mod requests;
pub mod text;
pub mod utils;
