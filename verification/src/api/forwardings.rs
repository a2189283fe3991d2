//! The requests on the forwardings of a mailbox.

use vstd::prelude::*;
use crate::client::{ClientView, Method, MigaduClient, Request};
use crate::payload::{filled, rendered};
use crate::types::forwarding::{CreateForwarding, UpdateForwarding};

verus! {

/// The path of the forwardings of a mailbox.
pub open spec fn forwardings_path(domain: Seq<char>, mailbox: Seq<char>) -> Seq<char> {
    "/domains/"@ + domain + "/mailboxes/"@ + mailbox + "/forwardings"@
}

/// The path of one forwarding: that of the collection, a slash, and
/// its address.
pub open spec fn forwarding_path(
    domain: Seq<char>,
    mailbox: Seq<char>,
    address: Seq<char>,
) -> Seq<char> {
    forwardings_path(domain, mailbox) + "/"@ + address
}

/// The address of one forwarding is the address of the forwardings, a slash,
/// and its address.
pub proof fn lemma_forwarding_has_one_address(
    client: ClientView,
    domain: Seq<char>,
    mailbox: Seq<char>,
    address: Seq<char>,
)
    ensures
        client.url(forwarding_path(domain, mailbox, address))
            == client.url(forwardings_path(domain, mailbox)) + "/"@ + address,
{
    assert(client.url(forwarding_path(domain, mailbox, address))
        =~= client.url(forwardings_path(domain, mailbox)) + "/"@ + address);
}

/// Writes out [`forwardings_path`].
fn collection(domain: &str, mailbox_local_part: &str) -> (path: String)
    ensures
        path@ == forwardings_path(domain@, mailbox_local_part@),
{
    let mut path = String::from_str("/domains/");
    path.append(domain);
    path.append("/mailboxes/");
    path.append(mailbox_local_part);
    path.append("/forwardings");
    path
}

/// Writes out [`forwarding_path`].
fn item(domain: &str, mailbox_local_part: &str, address: &str) -> (path: String)
    ensures
        path@ == forwarding_path(domain@, mailbox_local_part@, address@),
{
    let mut path = collection(domain, mailbox_local_part);
    path.append("/");
    path.append(address);
    path
}

impl MigaduClient {
    /// Lists all forwarding addresses for a mailbox.
    pub fn list_forwardings(&self, domain: &str, mailbox_local_part: &str) -> (request: Request)
        ensures
            request@ == self@.request(
                Method::Get,
                forwardings_path(domain@, mailbox_local_part@),
                None,
            ),
    {
        let path = collection(domain, mailbox_local_part);
        self.get(path.as_str())
    }

    /// Gets a specific forwarding address.
    pub fn get_forwarding(
        &self,
        domain: &str,
        mailbox_local_part: &str,
        address: &str,
    ) -> (request: Request)
        ensures
            request@ == self@.request(
                Method::Get,
                forwarding_path(domain@, mailbox_local_part@, address@),
                None,
            ),
    {
        let path = item(domain, mailbox_local_part, address);
        self.get(path.as_str())
    }

    /// Creates a new forwarding address for a mailbox.
    pub fn create_forwarding(
        &self,
        domain: &str,
        mailbox_local_part: &str,
        forwarding: &CreateForwarding,
    ) -> (request: Request)
        ensures
            request@ == self@.request(
                Method::Post,
                forwardings_path(domain@, mailbox_local_part@),
                Some(rendered(filled(forwarding.slots()))),
            ),
    {
        let path = collection(domain, mailbox_local_part);
        self.post(path.as_str(), &forwarding.payload())
    }

    /// Updates an existing forwarding address.
    pub fn update_forwarding(
        &self,
        domain: &str,
        mailbox_local_part: &str,
        address: &str,
        update: &UpdateForwarding,
    ) -> (request: Request)
        ensures
            request@ == self@.request(
                Method::Put,
                forwarding_path(domain@, mailbox_local_part@, address@),
                Some(rendered(filled(update.slots()))),
            ),
    {
        let path = item(domain, mailbox_local_part, address);
        self.put(path.as_str(), &update.payload())
    }

    /// Deletes a forwarding address. The service answers with the forwarding as it was.
    pub fn delete_forwarding(
        &self,
        domain: &str,
        mailbox_local_part: &str,
        address: &str,
    ) -> (request: Request)
        ensures
            request@ == self@.request(
                Method::Delete,
                forwarding_path(domain@, mailbox_local_part@, address@),
                None,
            ),
    {
        let path = item(domain, mailbox_local_part, address);
        self.delete(path.as_str())
    }
}

} // verus!
