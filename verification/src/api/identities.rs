//! The requests on the identities of a mailbox.

use vstd::prelude::*;
use crate::client::{ClientView, Method, MigaduClient, Request};
use crate::payload::{filled, rendered};
use crate::types::identity::{CreateIdentity, UpdateIdentity};

verus! {

/// The path of the identities of a mailbox.
pub open spec fn identities_path(domain: Seq<char>, mailbox: Seq<char>) -> Seq<char> {
    "/domains/"@ + domain + "/mailboxes/"@ + mailbox + "/identities"@
}

/// The path of one identity: that of the collection, a slash, and
/// its local part.
pub open spec fn identity_path(
    domain: Seq<char>,
    mailbox: Seq<char>,
    identity_local_part: Seq<char>,
) -> Seq<char> {
    identities_path(domain, mailbox) + "/"@ + identity_local_part
}

/// The address of one identity is the address of the identities, a slash,
/// and its local part.
pub proof fn lemma_identity_has_one_address(
    client: ClientView,
    domain: Seq<char>,
    mailbox: Seq<char>,
    identity_local_part: Seq<char>,
)
    ensures
        client.url(identity_path(domain, mailbox, identity_local_part))
            == client.url(identities_path(domain, mailbox)) + "/"@ + identity_local_part,
{
    assert(client.url(identity_path(domain, mailbox, identity_local_part))
        =~= client.url(identities_path(domain, mailbox)) + "/"@ + identity_local_part);
}

/// Writes out [`identities_path`].
fn collection(domain: &str, mailbox_local_part: &str) -> (path: String)
    ensures
        path@ == identities_path(domain@, mailbox_local_part@),
{
    let mut path = String::from_str("/domains/");
    path.append(domain);
    path.append("/mailboxes/");
    path.append(mailbox_local_part);
    path.append("/identities");
    path
}

/// Writes out [`identity_path`].
fn item(domain: &str, mailbox_local_part: &str, identity_local_part: &str) -> (path: String)
    ensures
        path@ == identity_path(domain@, mailbox_local_part@, identity_local_part@),
{
    let mut path = collection(domain, mailbox_local_part);
    path.append("/");
    path.append(identity_local_part);
    path
}

impl MigaduClient {
    /// Lists all identities for a mailbox.
    pub fn list_identities(&self, domain: &str, mailbox_local_part: &str) -> (request: Request)
        ensures
            request@ == self@.request(
                Method::Get,
                identities_path(domain@, mailbox_local_part@),
                None,
            ),
    {
        let path = collection(domain, mailbox_local_part);
        self.get(path.as_str())
    }

    /// Gets a specific identity.
    pub fn get_identity(
        &self,
        domain: &str,
        mailbox_local_part: &str,
        identity_local_part: &str,
    ) -> (request: Request)
        ensures
            request@ == self@.request(
                Method::Get,
                identity_path(domain@, mailbox_local_part@, identity_local_part@),
                None,
            ),
    {
        let path = item(domain, mailbox_local_part, identity_local_part);
        self.get(path.as_str())
    }

    /// Creates a new identity for a mailbox.
    pub fn create_identity(
        &self,
        domain: &str,
        mailbox_local_part: &str,
        identity: &CreateIdentity,
    ) -> (request: Request)
        ensures
            request@ == self@.request(
                Method::Post,
                identities_path(domain@, mailbox_local_part@),
                Some(rendered(filled(identity.slots()))),
            ),
    {
        let path = collection(domain, mailbox_local_part);
        self.post(path.as_str(), &identity.payload())
    }

    /// Updates an existing identity.
    pub fn update_identity(
        &self,
        domain: &str,
        mailbox_local_part: &str,
        identity_local_part: &str,
        update: &UpdateIdentity,
    ) -> (request: Request)
        ensures
            request@ == self@.request(
                Method::Put,
                identity_path(domain@, mailbox_local_part@, identity_local_part@),
                Some(rendered(filled(update.slots()))),
            ),
    {
        let path = item(domain, mailbox_local_part, identity_local_part);
        self.put(path.as_str(), &update.payload())
    }

    /// Deletes an identity. The service answers with the identity as it was.
    pub fn delete_identity(
        &self,
        domain: &str,
        mailbox_local_part: &str,
        identity_local_part: &str,
    ) -> (request: Request)
        ensures
            request@ == self@.request(
                Method::Delete,
                identity_path(domain@, mailbox_local_part@, identity_local_part@),
                None,
            ),
    {
        let path = item(domain, mailbox_local_part, identity_local_part);
        self.delete(path.as_str())
    }
}

} // verus!
