//! The requests on aliases.

use vstd::prelude::*;
use crate::client::{ClientView, Method, MigaduClient, Request};
use crate::payload::{filled, rendered};
use crate::types::alias::{CreateAlias, UpdateAlias};

verus! {

/// The path of the aliases of a domain.
pub open spec fn aliases_path(domain: Seq<char>) -> Seq<char> {
    "/domains/"@ + domain + "/aliases"@
}

/// The path of one alias: that of the collection, a slash, and
/// its local part.
pub open spec fn alias_path(domain: Seq<char>, local_part: Seq<char>) -> Seq<char> {
    aliases_path(domain) + "/"@ + local_part
}

/// The address of one alias is the address of the aliases, a slash,
/// and its local part.
pub proof fn lemma_alias_has_one_address(
    client: ClientView,
    domain: Seq<char>,
    local_part: Seq<char>,
)
    ensures
        client.url(alias_path(domain, local_part))
            == client.url(aliases_path(domain)) + "/"@ + local_part,
{
    assert(client.url(alias_path(domain, local_part))
        =~= client.url(aliases_path(domain)) + "/"@ + local_part);
}

/// Writes out [`aliases_path`].
fn collection(domain: &str) -> (path: String)
    ensures
        path@ == aliases_path(domain@),
{
    let mut path = String::from_str("/domains/");
    path.append(domain);
    path.append("/aliases");
    path
}

/// Writes out [`alias_path`].
fn item(domain: &str, local_part: &str) -> (path: String)
    ensures
        path@ == alias_path(domain@, local_part@),
{
    let mut path = collection(domain);
    path.append("/");
    path.append(local_part);
    path
}

impl MigaduClient {
    /// Lists all aliases for a domain.
    pub fn list_aliases(&self, domain: &str) -> (request: Request)
        ensures
            request@ == self@.request(Method::Get, aliases_path(domain@), None),
    {
        let path = collection(domain);
        self.get(path.as_str())
    }

    /// Gets a specific alias by its local part.
    pub fn get_alias(&self, domain: &str, local_part: &str) -> (request: Request)
        ensures
            request@ == self@.request(Method::Get, alias_path(domain@, local_part@), None),
    {
        let path = item(domain, local_part);
        self.get(path.as_str())
    }

    /// Creates a new alias.
    pub fn create_alias(&self, domain: &str, alias: &CreateAlias) -> (request: Request)
        ensures
            request@ == self@.request(
                Method::Post,
                aliases_path(domain@),
                Some(rendered(filled(alias.slots()))),
            ),
    {
        let path = collection(domain);
        self.post(path.as_str(), &alias.payload())
    }

    /// Updates an existing alias.
    pub fn update_alias(
        &self,
        domain: &str,
        local_part: &str,
        update: &UpdateAlias,
    ) -> (request: Request)
        ensures
            request@ == self@.request(
                Method::Put,
                alias_path(domain@, local_part@),
                Some(rendered(filled(update.slots()))),
            ),
    {
        let path = item(domain, local_part);
        self.put(path.as_str(), &update.payload())
    }

    /// Deletes an alias. The service answers with the alias as it was.
    pub fn delete_alias(&self, domain: &str, local_part: &str) -> (request: Request)
        ensures
            request@ == self@.request(Method::Delete, alias_path(domain@, local_part@), None),
    {
        let path = item(domain, local_part);
        self.delete(path.as_str())
    }
}

} // verus!
