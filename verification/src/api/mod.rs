//! The operations on the five resources, one file for each.
//!
//! Every operation is one request. List answers come in an envelope and are
//! read with `MigaduClient::handle_listing`; every other answer is the
//! record itself and is read with `MigaduClient::handle_response`.

pub mod aliases;
pub mod forwardings;
pub mod identities;
pub mod mailboxes;
pub mod rewrites;
