//! Authentication layer for inbound webhook interactions, together with the
//! data model that the authenticated payloads are decoded into.
//!
//! The security core proves that a request was signed, with an Ed25519 key,
//! over the exact bytes of its timestamp header followed by its body, and
//! that the claimed timestamp is recent.

pub mod auth;
pub mod command;
pub mod freshness;
pub mod hex;
pub mod interaction;
pub mod interaction_response;
pub mod option_value;
pub mod security;

pub use interaction::response::InteractionResponseBuilder;
pub use interaction::Interaction;
pub use option_value::OptionValue;
