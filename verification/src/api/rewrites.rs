//! The requests on rewrite rules.

use vstd::prelude::*;
use crate::client::{ClientView, Method, MigaduClient, Request};
use crate::payload::{filled, rendered};
use crate::types::rewrite::{CreateRewrite, UpdateRewrite};

verus! {

/// The path of the rewrites of a domain.
pub open spec fn rewrites_path(domain: Seq<char>) -> Seq<char> {
    "/domains/"@ + domain + "/rewrites"@
}

/// The path of one rewrite: that of the collection, a slash, and
/// its name.
pub open spec fn rewrite_path(domain: Seq<char>, name: Seq<char>) -> Seq<char> {
    rewrites_path(domain) + "/"@ + name
}

/// The address of one rewrite is the address of the rewrites, a slash,
/// and its name.
pub proof fn lemma_rewrite_has_one_address(client: ClientView, domain: Seq<char>, name: Seq<char>)
    ensures
        client.url(rewrite_path(domain, name)) == client.url(rewrites_path(domain)) + "/"@ + name,
{
    assert(client.url(rewrite_path(domain, name))
        =~= client.url(rewrites_path(domain)) + "/"@ + name);
}

/// Writes out [`rewrites_path`].
fn collection(domain: &str) -> (path: String)
    ensures
        path@ == rewrites_path(domain@),
{
    let mut path = String::from_str("/domains/");
    path.append(domain);
    path.append("/rewrites");
    path
}

/// Writes out [`rewrite_path`].
fn item(domain: &str, name: &str) -> (path: String)
    ensures
        path@ == rewrite_path(domain@, name@),
{
    let mut path = collection(domain);
    path.append("/");
    path.append(name);
    path
}

impl MigaduClient {
    /// Lists all rewrite rules for a domain.
    pub fn list_rewrites(&self, domain: &str) -> (request: Request)
        ensures
            request@ == self@.request(Method::Get, rewrites_path(domain@), None),
    {
        let path = collection(domain);
        self.get(path.as_str())
    }

    /// Gets a specific rewrite rule by its name.
    pub fn get_rewrite(&self, domain: &str, name: &str) -> (request: Request)
        ensures
            request@ == self@.request(Method::Get, rewrite_path(domain@, name@), None),
    {
        let path = item(domain, name);
        self.get(path.as_str())
    }

    /// Creates a new rewrite rule.
    pub fn create_rewrite(&self, domain: &str, rewrite: &CreateRewrite) -> (request: Request)
        ensures
            request@ == self@.request(
                Method::Post,
                rewrites_path(domain@),
                Some(rendered(filled(rewrite.slots()))),
            ),
    {
        let path = collection(domain);
        self.post(path.as_str(), &rewrite.payload())
    }

    /// Updates an existing rewrite rule.
    pub fn update_rewrite(
        &self,
        domain: &str,
        name: &str,
        update: &UpdateRewrite,
    ) -> (request: Request)
        ensures
            request@ == self@.request(
                Method::Put,
                rewrite_path(domain@, name@),
                Some(rendered(filled(update.slots()))),
            ),
    {
        let path = item(domain, name);
        self.put(path.as_str(), &update.payload())
    }

    /// Deletes a rewrite rule. The service answers with the rule as it was.
    pub fn delete_rewrite(&self, domain: &str, name: &str) -> (request: Request)
        ensures
            request@ == self@.request(Method::Delete, rewrite_path(domain@, name@), None),
    {
        let path = item(domain, name);
        self.delete(path.as_str())
    }
}

} // verus!
