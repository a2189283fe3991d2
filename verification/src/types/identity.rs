//! Identities: further personas of a mailbox.

use vstd::prelude::*;
use crate::error::Error;
use crate::json::{Json, JsonView, unexpected_of};
use crate::payload::{
    Field, FieldView, collect, filled, flag_slot, flag_slot_of, set_text_slot, text_slot,
    text_slot_of,
};
use crate::types::Entity;

verus! {

/// An identity associated with a mailbox.
#[derive(Debug, Clone)]
pub struct Identity {
    pub local_part: String,
    pub domain_name: String,
    pub address: String,
    pub name: String,
    pub may_send: bool,
    pub may_receive: bool,
    pub may_access_imap: bool,
    pub may_access_pop3: bool,
    pub may_access_managesieve: bool,
    pub footer_active: bool,
    pub footer_plain_body: Option<String>,
    pub footer_html_body: Option<String>,
}

/// The mathematical content of an [`Identity`].
pub struct IdentityView {
    pub local_part: Seq<char>,
    pub domain_name: Seq<char>,
    pub address: Seq<char>,
    pub name: Seq<char>,
    pub may_send: bool,
    pub may_receive: bool,
    pub may_access_imap: bool,
    pub may_access_pop3: bool,
    pub may_access_managesieve: bool,
    pub footer_active: bool,
    pub footer_plain_body: Option<Seq<char>>,
    pub footer_html_body: Option<Seq<char>>,
}

impl DeepView for Identity {
    type V = IdentityView;

    open spec fn deep_view(&self) -> IdentityView {
        IdentityView {
            local_part: self.local_part@,
            domain_name: self.domain_name@,
            address: self.address@,
            name: self.name@,
            may_send: self.may_send,
            may_receive: self.may_receive,
            may_access_imap: self.may_access_imap,
            may_access_pop3: self.may_access_pop3,
            may_access_managesieve: self.may_access_managesieve,
            footer_active: self.footer_active,
            footer_plain_body: self.footer_plain_body.deep_view(),
            footer_html_body: self.footer_html_body.deep_view(),
        }
    }
}

impl View for Identity {
    type V = IdentityView;

    open spec fn view(&self) -> IdentityView {
        self.deep_view()
    }
}

impl Entity for Identity {
    open spec fn decoded(j: JsonView) -> Result<IdentityView, Seq<char>> {
        if j.text("local_part"@) is None {
            Err(unexpected_of("local_part"@))
        } else if j.text("domain_name"@) is None {
            Err(unexpected_of("domain_name"@))
        } else if j.text("address"@) is None {
            Err(unexpected_of("address"@))
        } else if j.text("name"@) is None {
            Err(unexpected_of("name"@))
        } else if j.flag("may_send"@) is None {
            Err(unexpected_of("may_send"@))
        } else if j.flag("may_receive"@) is None {
            Err(unexpected_of("may_receive"@))
        } else if j.flag("may_access_imap"@) is None {
            Err(unexpected_of("may_access_imap"@))
        } else if j.flag("may_access_pop3"@) is None {
            Err(unexpected_of("may_access_pop3"@))
        } else if j.flag("may_access_managesieve"@) is None {
            Err(unexpected_of("may_access_managesieve"@))
        } else if j.flag("footer_active"@) is None {
            Err(unexpected_of("footer_active"@))
        } else if j.optional_text("footer_plain_body"@) is None {
            Err(unexpected_of("footer_plain_body"@))
        } else if j.optional_text("footer_html_body"@) is None {
            Err(unexpected_of("footer_html_body"@))
        } else {
            Ok(
                IdentityView {
                    local_part: j.text("local_part"@)->0,
                    domain_name: j.text("domain_name"@)->0,
                    address: j.text("address"@)->0,
                    name: j.text("name"@)->0,
                    may_send: j.flag("may_send"@)->0,
                    may_receive: j.flag("may_receive"@)->0,
                    may_access_imap: j.flag("may_access_imap"@)->0,
                    may_access_pop3: j.flag("may_access_pop3"@)->0,
                    may_access_managesieve: j.flag("may_access_managesieve"@)->0,
                    footer_active: j.flag("footer_active"@)->0,
                    footer_plain_body: j.optional_text("footer_plain_body"@)->0,
                    footer_html_body: j.optional_text("footer_html_body"@)->0,
                },
            )
        }
    }

    open spec fn envelope() -> Seq<char> {
        "identities"@
    }

    fn from_json(j: &Json) -> (r: Result<Identity, Error>) {
        let local_part = j.text("local_part")?;
        let domain_name = j.text("domain_name")?;
        let address = j.text("address")?;
        let name = j.text("name")?;
        let may_send = j.flag("may_send")?;
        let may_receive = j.flag("may_receive")?;
        let may_access_imap = j.flag("may_access_imap")?;
        let may_access_pop3 = j.flag("may_access_pop3")?;
        let may_access_managesieve = j.flag("may_access_managesieve")?;
        let footer_active = j.flag("footer_active")?;
        let footer_plain_body = j.optional_text("footer_plain_body")?;
        let footer_html_body = j.optional_text("footer_html_body")?;
        Ok(
            Identity {
                local_part,
                domain_name,
                address,
                name,
                may_send,
                may_receive,
                may_access_imap,
                may_access_pop3,
                may_access_managesieve,
                footer_active,
                footer_plain_body,
                footer_html_body,
            },
        )
    }

    fn envelope_key() -> (key: &'static str) {
        "identities"
    }
}

/// Every flag of an identity reads as `true` where the document says `true`,
/// and as `false` otherwise: where it says `false`, where it says `null`,
/// and where it leaves the member out.
pub proof fn lemma_identity_flags_default_to_false(j: JsonView)
    requires
        Identity::decoded(j) is Ok,
    ensures
        Identity::decoded(j)->Ok_0.may_send == j.says_true("may_send"@),
        Identity::decoded(j)->Ok_0.may_receive == j.says_true("may_receive"@),
        Identity::decoded(j)->Ok_0.may_access_imap == j.says_true("may_access_imap"@),
        Identity::decoded(j)->Ok_0.may_access_pop3 == j.says_true("may_access_pop3"@),
        Identity::decoded(j)->Ok_0.may_access_managesieve == j.says_true("may_access_managesieve"@),
        Identity::decoded(j)->Ok_0.footer_active == j.says_true("footer_active"@),
{
}

/// Request body for creating a new identity.
#[derive(Debug, Clone)]
pub struct CreateIdentity {
    pub local_part: String,
    pub name: String,
    pub password: Option<String>,
    pub may_send: Option<bool>,
    pub may_receive: Option<bool>,
    pub may_access_imap: Option<bool>,
    pub may_access_pop3: Option<bool>,
    pub may_access_managesieve: Option<bool>,
}

impl CreateIdentity {
    /// Creates a new identity creation request with the required fields.
    pub fn new(local_part: &str, name: &str) -> (request: CreateIdentity)
        ensures
            request.local_part@ == local_part@,
            request.name@ == name@,
            request.password is None,
            request.may_send is None,
            request.may_receive is None,
            request.may_access_imap is None,
            request.may_access_pop3 is None,
            request.may_access_managesieve is None,
    {
        CreateIdentity {
            local_part: String::from_str(local_part),
            name: String::from_str(name),
            password: None,
            may_send: None,
            may_receive: None,
            may_access_imap: None,
            may_access_pop3: None,
            may_access_managesieve: None,
        }
    }

    /// One slot for each field, in the order in which the payload lists
    /// them.
    pub open spec fn slots(&self) -> Seq<Option<FieldView>> {
        seq![
            text_slot_of("local_part"@, Some(self.local_part)),
            text_slot_of("name"@, Some(self.name)),
            text_slot_of("password"@, self.password),
            flag_slot_of("may_send"@, self.may_send),
            flag_slot_of("may_receive"@, self.may_receive),
            flag_slot_of("may_access_imap"@, self.may_access_imap),
            flag_slot_of("may_access_pop3"@, self.may_access_pop3),
            flag_slot_of("may_access_managesieve"@, self.may_access_managesieve),
        ]
    }

    /// The fields that the request sends: the required ones, and of the
    /// others those that were set.
    pub fn payload(&self) -> (fields: Vec<Field>)
        ensures
            fields.deep_view() == filled(self.slots()),
    {
        let slots = vec![
            set_text_slot("local_part", self.local_part.as_str()),
            set_text_slot("name", self.name.as_str()),
            text_slot("password", &self.password),
            flag_slot("may_send", &self.may_send),
            flag_slot("may_receive", &self.may_receive),
            flag_slot("may_access_imap", &self.may_access_imap),
            flag_slot("may_access_pop3", &self.may_access_pop3),
            flag_slot("may_access_managesieve", &self.may_access_managesieve),
        ];
        assert(slots.deep_view() =~= self.slots());
        collect(slots)
    }
}

/// Request body for updating an existing identity.
#[derive(Debug, Clone)]
pub struct UpdateIdentity {
    pub name: Option<String>,
    pub password: Option<String>,
    pub may_send: Option<bool>,
    pub may_receive: Option<bool>,
    pub may_access_imap: Option<bool>,
    pub may_access_pop3: Option<bool>,
    pub may_access_managesieve: Option<bool>,
    pub footer_active: Option<bool>,
    pub footer_plain_body: Option<String>,
    pub footer_html_body: Option<String>,
}

impl Default for UpdateIdentity {
    /// A request that sets nothing.
    fn default() -> (request: UpdateIdentity)
        ensures
            request.name is None,
            request.password is None,
            request.may_send is None,
            request.may_receive is None,
            request.may_access_imap is None,
            request.may_access_pop3 is None,
            request.may_access_managesieve is None,
            request.footer_active is None,
            request.footer_plain_body is None,
            request.footer_html_body is None,
    {
        UpdateIdentity {
            name: None,
            password: None,
            may_send: None,
            may_receive: None,
            may_access_imap: None,
            may_access_pop3: None,
            may_access_managesieve: None,
            footer_active: None,
            footer_plain_body: None,
            footer_html_body: None,
        }
    }
}

impl UpdateIdentity {
    /// One slot for each field, in the order in which the payload lists
    /// them.
    pub open spec fn slots(&self) -> Seq<Option<FieldView>> {
        seq![
            text_slot_of("name"@, self.name),
            text_slot_of("password"@, self.password),
            flag_slot_of("may_send"@, self.may_send),
            flag_slot_of("may_receive"@, self.may_receive),
            flag_slot_of("may_access_imap"@, self.may_access_imap),
            flag_slot_of("may_access_pop3"@, self.may_access_pop3),
            flag_slot_of("may_access_managesieve"@, self.may_access_managesieve),
            flag_slot_of("footer_active"@, self.footer_active),
            text_slot_of("footer_plain_body"@, self.footer_plain_body),
            text_slot_of("footer_html_body"@, self.footer_html_body),
        ]
    }

    /// The fields that the request sends: those that were set, and no
    /// others.
    pub fn payload(&self) -> (fields: Vec<Field>)
        ensures
            fields.deep_view() == filled(self.slots()),
    {
        let slots = vec![
            text_slot("name", &self.name),
            text_slot("password", &self.password),
            flag_slot("may_send", &self.may_send),
            flag_slot("may_receive", &self.may_receive),
            flag_slot("may_access_imap", &self.may_access_imap),
            flag_slot("may_access_pop3", &self.may_access_pop3),
            flag_slot("may_access_managesieve", &self.may_access_managesieve),
            flag_slot("footer_active", &self.footer_active),
            text_slot("footer_plain_body", &self.footer_plain_body),
            text_slot("footer_html_body", &self.footer_html_body),
        ];
        assert(slots.deep_view() =~= self.slots());
        collect(slots)
    }
}

} // verus!
