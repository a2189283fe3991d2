//! The lines that a command-line front end prints: one line for each
//! record of a list, with tabs between its columns, and one line that
//! confirms a creation, an update or a deletion.

use vstd::prelude::*;
use crate::types::alias::{Alias, AliasView};
use crate::types::identity::{Identity, IdentityView};
use crate::types::mailbox::{Mailbox, MailboxView};
use crate::types::rewrite::{Rewrite, RewriteView};

verus! {

/// What `{:?}` writes for a list of texts: the texts between square
/// brackets, each between double quotes with its escapes, with a comma and
/// a space between two.
pub uninterp spec fn debug_text(list: Seq<Seq<char>>) -> Seq<char>;

/// `format!("{:?}", ..)` of a list of texts, which depends on the list
/// alone.
#[verifier::external_body]
fn debug_list(list: &Vec<String>) -> (out: String)
    ensures
        out@ == debug_text(list.deep_view()),
{
    format!("{:?}", list)
}

/// The line of a mailbox: address and name.
pub open spec fn mailbox_line_of(mailbox: MailboxView) -> Seq<char> {
    mailbox.address + "\t"@ + mailbox.name
}

/// The line of an identity: address and name.
pub open spec fn identity_line_of(identity: IdentityView) -> Seq<char> {
    identity.address + "\t"@ + identity.name
}

/// The line of an alias: address and destinations.
pub open spec fn alias_line_of(alias: AliasView) -> Seq<char> {
    alias.address + "\t"@ + debug_text(alias.destinations)
}

/// The line of a rewrite rule: name, pattern and destinations.
pub open spec fn rewrite_line_of(rewrite: RewriteView) -> Seq<char> {
    rewrite.name + "\t"@ + rewrite.local_part_rule + "\t"@ + debug_text(rewrite.destinations)
}

/// The line of a mailbox in a list.
pub fn mailbox_line(mailbox: &Mailbox) -> (line: String)
    ensures
        line@ == mailbox_line_of(mailbox.deep_view()),
{
    let mut line = mailbox.address.clone();
    line.append("\t");
    line.append(mailbox.name.as_str());
    line
}

/// The line of an identity in a list.
pub fn identity_line(identity: &Identity) -> (line: String)
    ensures
        line@ == identity_line_of(identity.deep_view()),
{
    let mut line = identity.address.clone();
    line.append("\t");
    line.append(identity.name.as_str());
    line
}

/// The line of an alias in a list.
pub fn alias_line(alias: &Alias) -> (line: String)
    ensures
        line@ == alias_line_of(alias.deep_view()),
{
    let mut line = alias.address.clone();
    line.append("\t");
    line.append(debug_list(&alias.destinations).as_str());
    line
}

/// The line of a rewrite rule in a list.
pub fn rewrite_line(rewrite: &Rewrite) -> (line: String)
    ensures
        line@ == rewrite_line_of(rewrite.deep_view()),
{
    let mut line = rewrite.name.clone();
    line.append("\t");
    line.append(rewrite.local_part_rule.as_str());
    line.append("\t");
    line.append(debug_list(&rewrite.destinations).as_str());
    line
}

/// The line that confirms a creation.
pub fn created(key: &str) -> (line: String)
    ensures
        line@ == "Created: "@ + key@,
{
    let mut line = String::from_str("Created: ");
    line.append(key);
    line
}

/// The line that confirms an update.
pub fn updated(key: &str) -> (line: String)
    ensures
        line@ == "Updated: "@ + key@,
{
    let mut line = String::from_str("Updated: ");
    line.append(key);
    line
}

/// The line that confirms a deletion.
pub fn deleted(key: &str) -> (line: String)
    ensures
        line@ == "Deleted: "@ + key@,
{
    let mut line = String::from_str("Deleted: ");
    line.append(key);
    line
}

} // verus!
