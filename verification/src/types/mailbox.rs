//! Mailboxes.

use vstd::prelude::*;
use crate::error::Error;
use crate::json::{Json, JsonView, unexpected_of};
use crate::payload::{
    Field, FieldView, collect, filled, flag_slot, flag_slot_of, set_text_slot, text_slot,
    text_slot_of, texts_slot, texts_slot_of,
};
use crate::types::Entity;

verus! {

/// A mailbox in the Migadu system.
#[derive(Debug, Clone)]
pub struct Mailbox {
    pub local_part: String,
    pub domain_name: String,
    pub address: String,
    pub name: String,
    pub is_internal: bool,
    pub may_send: bool,
    pub may_receive: bool,
    pub may_access_imap: bool,
    pub may_access_pop3: bool,
    pub may_access_managesieve: bool,
    pub password_recovery_email: Option<String>,
    pub spam_action: Option<String>,
    pub spam_aggressiveness: Option<String>,
    pub sender_denylist: Vec<String>,
    pub sender_allowlist: Vec<String>,
    pub recipient_denylist: Vec<String>,
    pub autorespond_active: bool,
    pub autorespond_subject: Option<String>,
    pub autorespond_body: Option<String>,
    pub autorespond_expires_on: Option<String>,
    pub footer_active: bool,
    pub footer_plain_body: Option<String>,
    pub footer_html_body: Option<String>,
    pub delegations: Vec<String>,
    pub identities: Vec<String>,
}

/// The mathematical content of a [`Mailbox`].
pub struct MailboxView {
    pub local_part: Seq<char>,
    pub domain_name: Seq<char>,
    pub address: Seq<char>,
    pub name: Seq<char>,
    pub is_internal: bool,
    pub may_send: bool,
    pub may_receive: bool,
    pub may_access_imap: bool,
    pub may_access_pop3: bool,
    pub may_access_managesieve: bool,
    pub password_recovery_email: Option<Seq<char>>,
    pub spam_action: Option<Seq<char>>,
    pub spam_aggressiveness: Option<Seq<char>>,
    pub sender_denylist: Seq<Seq<char>>,
    pub sender_allowlist: Seq<Seq<char>>,
    pub recipient_denylist: Seq<Seq<char>>,
    pub autorespond_active: bool,
    pub autorespond_subject: Option<Seq<char>>,
    pub autorespond_body: Option<Seq<char>>,
    pub autorespond_expires_on: Option<Seq<char>>,
    pub footer_active: bool,
    pub footer_plain_body: Option<Seq<char>>,
    pub footer_html_body: Option<Seq<char>>,
    pub delegations: Seq<Seq<char>>,
    pub identities: Seq<Seq<char>>,
}

impl DeepView for Mailbox {
    type V = MailboxView;

    open spec fn deep_view(&self) -> MailboxView {
        MailboxView {
            local_part: self.local_part@,
            domain_name: self.domain_name@,
            address: self.address@,
            name: self.name@,
            is_internal: self.is_internal,
            may_send: self.may_send,
            may_receive: self.may_receive,
            may_access_imap: self.may_access_imap,
            may_access_pop3: self.may_access_pop3,
            may_access_managesieve: self.may_access_managesieve,
            password_recovery_email: self.password_recovery_email.deep_view(),
            spam_action: self.spam_action.deep_view(),
            spam_aggressiveness: self.spam_aggressiveness.deep_view(),
            sender_denylist: self.sender_denylist.deep_view(),
            sender_allowlist: self.sender_allowlist.deep_view(),
            recipient_denylist: self.recipient_denylist.deep_view(),
            autorespond_active: self.autorespond_active,
            autorespond_subject: self.autorespond_subject.deep_view(),
            autorespond_body: self.autorespond_body.deep_view(),
            autorespond_expires_on: self.autorespond_expires_on.deep_view(),
            footer_active: self.footer_active,
            footer_plain_body: self.footer_plain_body.deep_view(),
            footer_html_body: self.footer_html_body.deep_view(),
            delegations: self.delegations.deep_view(),
            identities: self.identities.deep_view(),
        }
    }
}

impl View for Mailbox {
    type V = MailboxView;

    open spec fn view(&self) -> MailboxView {
        self.deep_view()
    }
}

impl Entity for Mailbox {
    open spec fn decoded(j: JsonView) -> Result<MailboxView, Seq<char>> {
        if j.text("local_part"@) is None {
            Err(unexpected_of("local_part"@))
        } else if j.text("domain_name"@) is None {
            Err(unexpected_of("domain_name"@))
        } else if j.text("address"@) is None {
            Err(unexpected_of("address"@))
        } else if j.text("name"@) is None {
            Err(unexpected_of("name"@))
        } else if j.flag("is_internal"@) is None {
            Err(unexpected_of("is_internal"@))
        } else if j.flag("may_send"@) is None {
            Err(unexpected_of("may_send"@))
        } else if j.flag("may_receive"@) is None {
            Err(unexpected_of("may_receive"@))
        } else if j.flag("may_access_imap"@) is None {
            Err(unexpected_of("may_access_imap"@))
        } else if j.flag("may_access_pop3"@) is None {
            Err(unexpected_of("may_access_pop3"@))
        } else if j.flag("may_access_managesieve"@) is None {
            Err(unexpected_of("may_access_managesieve"@))
        } else if j.optional_text("password_recovery_email"@) is None {
            Err(unexpected_of("password_recovery_email"@))
        } else if j.optional_text("spam_action"@) is None {
            Err(unexpected_of("spam_action"@))
        } else if j.optional_text("spam_aggressiveness"@) is None {
            Err(unexpected_of("spam_aggressiveness"@))
        } else if j.texts("sender_denylist"@) is None {
            Err(unexpected_of("sender_denylist"@))
        } else if j.texts("sender_allowlist"@) is None {
            Err(unexpected_of("sender_allowlist"@))
        } else if j.texts("recipient_denylist"@) is None {
            Err(unexpected_of("recipient_denylist"@))
        } else if j.flag("autorespond_active"@) is None {
            Err(unexpected_of("autorespond_active"@))
        } else if j.optional_text("autorespond_subject"@) is None {
            Err(unexpected_of("autorespond_subject"@))
        } else if j.optional_text("autorespond_body"@) is None {
            Err(unexpected_of("autorespond_body"@))
        } else if j.optional_text("autorespond_expires_on"@) is None {
            Err(unexpected_of("autorespond_expires_on"@))
        } else if j.flag("footer_active"@) is None {
            Err(unexpected_of("footer_active"@))
        } else if j.optional_text("footer_plain_body"@) is None {
            Err(unexpected_of("footer_plain_body"@))
        } else if j.optional_text("footer_html_body"@) is None {
            Err(unexpected_of("footer_html_body"@))
        } else if j.texts("delegations"@) is None {
            Err(unexpected_of("delegations"@))
        } else if j.texts("identities"@) is None {
            Err(unexpected_of("identities"@))
        } else {
            Ok(
                MailboxView {
                    local_part: j.text("local_part"@)->0,
                    domain_name: j.text("domain_name"@)->0,
                    address: j.text("address"@)->0,
                    name: j.text("name"@)->0,
                    is_internal: j.flag("is_internal"@)->0,
                    may_send: j.flag("may_send"@)->0,
                    may_receive: j.flag("may_receive"@)->0,
                    may_access_imap: j.flag("may_access_imap"@)->0,
                    may_access_pop3: j.flag("may_access_pop3"@)->0,
                    may_access_managesieve: j.flag("may_access_managesieve"@)->0,
                    password_recovery_email: j.optional_text("password_recovery_email"@)->0,
                    spam_action: j.optional_text("spam_action"@)->0,
                    spam_aggressiveness: j.optional_text("spam_aggressiveness"@)->0,
                    sender_denylist: j.texts("sender_denylist"@)->0,
                    sender_allowlist: j.texts("sender_allowlist"@)->0,
                    recipient_denylist: j.texts("recipient_denylist"@)->0,
                    autorespond_active: j.flag("autorespond_active"@)->0,
                    autorespond_subject: j.optional_text("autorespond_subject"@)->0,
                    autorespond_body: j.optional_text("autorespond_body"@)->0,
                    autorespond_expires_on: j.optional_text("autorespond_expires_on"@)->0,
                    footer_active: j.flag("footer_active"@)->0,
                    footer_plain_body: j.optional_text("footer_plain_body"@)->0,
                    footer_html_body: j.optional_text("footer_html_body"@)->0,
                    delegations: j.texts("delegations"@)->0,
                    identities: j.texts("identities"@)->0,
                },
            )
        }
    }

    open spec fn envelope() -> Seq<char> {
        "mailboxes"@
    }

    fn from_json(j: &Json) -> (r: Result<Mailbox, Error>) {
        let local_part = j.text("local_part")?;
        let domain_name = j.text("domain_name")?;
        let address = j.text("address")?;
        let name = j.text("name")?;
        let is_internal = j.flag("is_internal")?;
        let may_send = j.flag("may_send")?;
        let may_receive = j.flag("may_receive")?;
        let may_access_imap = j.flag("may_access_imap")?;
        let may_access_pop3 = j.flag("may_access_pop3")?;
        let may_access_managesieve = j.flag("may_access_managesieve")?;
        let password_recovery_email = j.optional_text("password_recovery_email")?;
        let spam_action = j.optional_text("spam_action")?;
        let spam_aggressiveness = j.optional_text("spam_aggressiveness")?;
        let sender_denylist = j.texts("sender_denylist")?;
        let sender_allowlist = j.texts("sender_allowlist")?;
        let recipient_denylist = j.texts("recipient_denylist")?;
        let autorespond_active = j.flag("autorespond_active")?;
        let autorespond_subject = j.optional_text("autorespond_subject")?;
        let autorespond_body = j.optional_text("autorespond_body")?;
        let autorespond_expires_on = j.optional_text("autorespond_expires_on")?;
        let footer_active = j.flag("footer_active")?;
        let footer_plain_body = j.optional_text("footer_plain_body")?;
        let footer_html_body = j.optional_text("footer_html_body")?;
        let delegations = j.texts("delegations")?;
        let identities = j.texts("identities")?;
        Ok(
            Mailbox {
                local_part,
                domain_name,
                address,
                name,
                is_internal,
                may_send,
                may_receive,
                may_access_imap,
                may_access_pop3,
                may_access_managesieve,
                password_recovery_email,
                spam_action,
                spam_aggressiveness,
                sender_denylist,
                sender_allowlist,
                recipient_denylist,
                autorespond_active,
                autorespond_subject,
                autorespond_body,
                autorespond_expires_on,
                footer_active,
                footer_plain_body,
                footer_html_body,
                delegations,
                identities,
            },
        )
    }

    fn envelope_key() -> (key: &'static str) {
        "mailboxes"
    }
}

/// Every flag of a mailbox reads as `true` where the document says `true`,
/// and as `false` otherwise: where it says `false`, where it says `null`,
/// and where it leaves the member out.
pub proof fn lemma_mailbox_flags_default_to_false(j: JsonView)
    requires
        Mailbox::decoded(j) is Ok,
    ensures
        Mailbox::decoded(j)->Ok_0.is_internal == j.says_true("is_internal"@),
        Mailbox::decoded(j)->Ok_0.may_send == j.says_true("may_send"@),
        Mailbox::decoded(j)->Ok_0.may_receive == j.says_true("may_receive"@),
        Mailbox::decoded(j)->Ok_0.may_access_imap == j.says_true("may_access_imap"@),
        Mailbox::decoded(j)->Ok_0.may_access_pop3 == j.says_true("may_access_pop3"@),
        Mailbox::decoded(j)->Ok_0.may_access_managesieve == j.says_true("may_access_managesieve"@),
        Mailbox::decoded(j)->Ok_0.autorespond_active == j.says_true("autorespond_active"@),
        Mailbox::decoded(j)->Ok_0.footer_active == j.says_true("footer_active"@),
{
}

/// Request body for creating a new mailbox.
#[derive(Debug, Clone)]
pub struct CreateMailbox {
    pub local_part: String,
    pub name: String,
    pub password: String,
    pub password_recovery_email: Option<String>,
    pub is_internal: Option<bool>,
}

impl CreateMailbox {
    /// Creates a new mailbox creation request with the required fields.
    pub fn new(local_part: &str, name: &str, password: &str) -> (request: CreateMailbox)
        ensures
            request.local_part@ == local_part@,
            request.name@ == name@,
            request.password@ == password@,
            request.password_recovery_email is None,
            request.is_internal is None,
    {
        CreateMailbox {
            local_part: String::from_str(local_part),
            name: String::from_str(name),
            password: String::from_str(password),
            password_recovery_email: None,
            is_internal: None,
        }
    }

    /// One slot for each field, in the order in which the payload lists
    /// them.
    pub open spec fn slots(&self) -> Seq<Option<FieldView>> {
        seq![
            text_slot_of("local_part"@, Some(self.local_part)),
            text_slot_of("name"@, Some(self.name)),
            text_slot_of("password"@, Some(self.password)),
            text_slot_of("password_recovery_email"@, self.password_recovery_email),
            flag_slot_of("is_internal"@, self.is_internal),
        ]
    }

    /// The fields that the request sends: the required ones, and of the
    /// others those that were set.
    pub fn payload(&self) -> (fields: Vec<Field>)
        ensures
            fields.deep_view() == filled(self.slots()),
    {
        let slots = vec![
            set_text_slot("local_part", self.local_part.as_str()),
            set_text_slot("name", self.name.as_str()),
            set_text_slot("password", self.password.as_str()),
            text_slot("password_recovery_email", &self.password_recovery_email),
            flag_slot("is_internal", &self.is_internal),
        ];
        assert(slots.deep_view() =~= self.slots());
        collect(slots)
    }
}

/// Request body for updating an existing mailbox.
#[derive(Debug, Clone)]
pub struct UpdateMailbox {
    pub name: Option<String>,
    pub password: Option<String>,
    pub password_recovery_email: Option<String>,
    pub is_internal: Option<bool>,
    pub may_send: Option<bool>,
    pub may_receive: Option<bool>,
    pub may_access_imap: Option<bool>,
    pub may_access_pop3: Option<bool>,
    pub may_access_managesieve: Option<bool>,
    pub spam_action: Option<String>,
    pub spam_aggressiveness: Option<String>,
    pub sender_denylist: Option<Vec<String>>,
    pub sender_allowlist: Option<Vec<String>>,
    pub recipient_denylist: Option<Vec<String>>,
    pub autorespond_active: Option<bool>,
    pub autorespond_subject: Option<String>,
    pub autorespond_body: Option<String>,
    pub autorespond_expires_on: Option<String>,
    pub footer_active: Option<bool>,
    pub footer_plain_body: Option<String>,
    pub footer_html_body: Option<String>,
}

impl Default for UpdateMailbox {
    /// A request that sets nothing.
    fn default() -> (request: UpdateMailbox)
        ensures
            request.name is None,
            request.password is None,
            request.password_recovery_email is None,
            request.is_internal is None,
            request.may_send is None,
            request.may_receive is None,
            request.may_access_imap is None,
            request.may_access_pop3 is None,
            request.may_access_managesieve is None,
            request.spam_action is None,
            request.spam_aggressiveness is None,
            request.sender_denylist is None,
            request.sender_allowlist is None,
            request.recipient_denylist is None,
            request.autorespond_active is None,
            request.autorespond_subject is None,
            request.autorespond_body is None,
            request.autorespond_expires_on is None,
            request.footer_active is None,
            request.footer_plain_body is None,
            request.footer_html_body is None,
    {
        UpdateMailbox {
            name: None,
            password: None,
            password_recovery_email: None,
            is_internal: None,
            may_send: None,
            may_receive: None,
            may_access_imap: None,
            may_access_pop3: None,
            may_access_managesieve: None,
            spam_action: None,
            spam_aggressiveness: None,
            sender_denylist: None,
            sender_allowlist: None,
            recipient_denylist: None,
            autorespond_active: None,
            autorespond_subject: None,
            autorespond_body: None,
            autorespond_expires_on: None,
            footer_active: None,
            footer_plain_body: None,
            footer_html_body: None,
        }
    }
}

impl UpdateMailbox {
    /// One slot for each field, in the order in which the payload lists
    /// them.
    pub open spec fn slots(&self) -> Seq<Option<FieldView>> {
        seq![
            text_slot_of("name"@, self.name),
            text_slot_of("password"@, self.password),
            text_slot_of("password_recovery_email"@, self.password_recovery_email),
            flag_slot_of("is_internal"@, self.is_internal),
            flag_slot_of("may_send"@, self.may_send),
            flag_slot_of("may_receive"@, self.may_receive),
            flag_slot_of("may_access_imap"@, self.may_access_imap),
            flag_slot_of("may_access_pop3"@, self.may_access_pop3),
            flag_slot_of("may_access_managesieve"@, self.may_access_managesieve),
            text_slot_of("spam_action"@, self.spam_action),
            text_slot_of("spam_aggressiveness"@, self.spam_aggressiveness),
            texts_slot_of("sender_denylist"@, self.sender_denylist),
            texts_slot_of("sender_allowlist"@, self.sender_allowlist),
            texts_slot_of("recipient_denylist"@, self.recipient_denylist),
            flag_slot_of("autorespond_active"@, self.autorespond_active),
            text_slot_of("autorespond_subject"@, self.autorespond_subject),
            text_slot_of("autorespond_body"@, self.autorespond_body),
            text_slot_of("autorespond_expires_on"@, self.autorespond_expires_on),
            flag_slot_of("footer_active"@, self.footer_active),
            text_slot_of("footer_plain_body"@, self.footer_plain_body),
            text_slot_of("footer_html_body"@, self.footer_html_body),
        ]
    }

    /// The fields that the request sends: those that were set, and no
    /// others.
    pub fn payload(&self) -> (fields: Vec<Field>)
        ensures
            fields.deep_view() == filled(self.slots()),
    {
        let slots = vec![
            text_slot("name", &self.name),
            text_slot("password", &self.password),
            text_slot("password_recovery_email", &self.password_recovery_email),
            flag_slot("is_internal", &self.is_internal),
            flag_slot("may_send", &self.may_send),
            flag_slot("may_receive", &self.may_receive),
            flag_slot("may_access_imap", &self.may_access_imap),
            flag_slot("may_access_pop3", &self.may_access_pop3),
            flag_slot("may_access_managesieve", &self.may_access_managesieve),
            text_slot("spam_action", &self.spam_action),
            text_slot("spam_aggressiveness", &self.spam_aggressiveness),
            texts_slot("sender_denylist", &self.sender_denylist),
            texts_slot("sender_allowlist", &self.sender_allowlist),
            texts_slot("recipient_denylist", &self.recipient_denylist),
            flag_slot("autorespond_active", &self.autorespond_active),
            text_slot("autorespond_subject", &self.autorespond_subject),
            text_slot("autorespond_body", &self.autorespond_body),
            text_slot("autorespond_expires_on", &self.autorespond_expires_on),
            flag_slot("footer_active", &self.footer_active),
            text_slot("footer_plain_body", &self.footer_plain_body),
            text_slot("footer_html_body", &self.footer_html_body),
        ];
        assert(slots.deep_view() =~= self.slots());
        collect(slots)
    }
}

} // verus!
