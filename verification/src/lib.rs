//! Typed, transport-free client core for the Migadu email hosting API.
//!
//! The crate builds the HTTP request of every operation and interprets the
//! answer; sending the request is left to the caller.
//!
//! ```text
//! let client = MigaduClient::new("user@example.com", "api-key");
//! let request = client.list_mailboxes("example.com");
//! // ... send `request`, and put what came back into a `Response` ...
//! let mailboxes: Vec<Mailbox> = client.handle_listing(&response)?;
//! ```

pub mod api;
pub mod bridge;
pub mod client;
pub mod error;
pub mod json;
pub mod payload;
pub mod report;
pub mod text;
pub mod types;

pub use client::{Body, Method, MigaduClient, Request, Response};
pub use error::Error;
pub use json::Json;
pub use payload::{Field, FieldValue};
pub use types::alias::{Alias, CreateAlias, UpdateAlias};
pub use types::forwarding::{CreateForwarding, Forwarding, UpdateForwarding};
pub use types::identity::{CreateIdentity, Identity, UpdateIdentity};
pub use types::mailbox::{CreateMailbox, Mailbox, UpdateMailbox};
pub use types::rewrite::{CreateRewrite, Rewrite, UpdateRewrite};
pub use types::Entity;
