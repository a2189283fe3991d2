//! The requests on mailboxes.

use vstd::prelude::*;
use crate::client::{ClientView, Method, MigaduClient, Request};
use crate::payload::{filled, rendered};
use crate::types::mailbox::{CreateMailbox, UpdateMailbox};

verus! {

/// The path of the mailboxes of a domain.
pub open spec fn mailboxes_path(domain: Seq<char>) -> Seq<char> {
    "/domains/"@ + domain + "/mailboxes"@
}

/// The path of one mailbox: that of the collection, a slash, and
/// its local part.
pub open spec fn mailbox_path(domain: Seq<char>, local_part: Seq<char>) -> Seq<char> {
    mailboxes_path(domain) + "/"@ + local_part
}

/// The address of one mailbox is the address of the mailboxes, a slash,
/// and its local part.
pub proof fn lemma_mailbox_has_one_address(
    client: ClientView,
    domain: Seq<char>,
    local_part: Seq<char>,
)
    ensures
        client.url(mailbox_path(domain, local_part))
            == client.url(mailboxes_path(domain)) + "/"@ + local_part,
{
    assert(client.url(mailbox_path(domain, local_part))
        =~= client.url(mailboxes_path(domain)) + "/"@ + local_part);
}

/// Writes out [`mailboxes_path`].
fn collection(domain: &str) -> (path: String)
    ensures
        path@ == mailboxes_path(domain@),
{
    let mut path = String::from_str("/domains/");
    path.append(domain);
    path.append("/mailboxes");
    path
}

/// Writes out [`mailbox_path`].
fn item(domain: &str, local_part: &str) -> (path: String)
    ensures
        path@ == mailbox_path(domain@, local_part@),
{
    let mut path = collection(domain);
    path.append("/");
    path.append(local_part);
    path
}

impl MigaduClient {
    /// Lists all mailboxes for a domain.
    pub fn list_mailboxes(&self, domain: &str) -> (request: Request)
        ensures
            request@ == self@.request(Method::Get, mailboxes_path(domain@), None),
    {
        let path = collection(domain);
        self.get(path.as_str())
    }

    /// Gets a specific mailbox by its local part.
    pub fn get_mailbox(&self, domain: &str, local_part: &str) -> (request: Request)
        ensures
            request@ == self@.request(Method::Get, mailbox_path(domain@, local_part@), None),
    {
        let path = item(domain, local_part);
        self.get(path.as_str())
    }

    /// Creates a new mailbox.
    pub fn create_mailbox(&self, domain: &str, mailbox: &CreateMailbox) -> (request: Request)
        ensures
            request@ == self@.request(
                Method::Post,
                mailboxes_path(domain@),
                Some(rendered(filled(mailbox.slots()))),
            ),
    {
        let path = collection(domain);
        self.post(path.as_str(), &mailbox.payload())
    }

    /// Updates an existing mailbox.
    pub fn update_mailbox(
        &self,
        domain: &str,
        local_part: &str,
        update: &UpdateMailbox,
    ) -> (request: Request)
        ensures
            request@ == self@.request(
                Method::Put,
                mailbox_path(domain@, local_part@),
                Some(rendered(filled(update.slots()))),
            ),
    {
        let path = item(domain, local_part);
        self.put(path.as_str(), &update.payload())
    }

    /// Deletes a mailbox. The service answers with the mailbox as it was.
    pub fn delete_mailbox(&self, domain: &str, local_part: &str) -> (request: Request)
        ensures
            request@ == self@.request(Method::Delete, mailbox_path(domain@, local_part@), None),
    {
        let path = item(domain, local_part);
        self.delete(path.as_str())
    }
}

} // verus!
