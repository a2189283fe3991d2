//! Forwardings: outside addresses to which a mailbox passes its mail on.

use vstd::prelude::*;
use crate::error::Error;
use crate::json::{Json, JsonView, unexpected_of};
use crate::payload::{
    Field, FieldView, collect, filled, flag_slot, flag_slot_of, set_text_slot, text_slot,
    text_slot_of,
};
use crate::types::Entity;

verus! {

/// A forwarding address associated with a mailbox.
#[derive(Debug, Clone)]
pub struct Forwarding {
    pub address: String,
    pub blocked_at: Option<String>,
    pub confirmation_sent_at: Option<String>,
    pub confirmed_at: Option<String>,
    pub expires_on: Option<String>,
    pub is_active: bool,
    pub remove_upon_expiry: Option<bool>,
}

/// The mathematical content of a [`Forwarding`].
pub struct ForwardingView {
    pub address: Seq<char>,
    pub blocked_at: Option<Seq<char>>,
    pub confirmation_sent_at: Option<Seq<char>>,
    pub confirmed_at: Option<Seq<char>>,
    pub expires_on: Option<Seq<char>>,
    pub is_active: bool,
    pub remove_upon_expiry: Option<bool>,
}

impl DeepView for Forwarding {
    type V = ForwardingView;

    open spec fn deep_view(&self) -> ForwardingView {
        ForwardingView {
            address: self.address@,
            blocked_at: self.blocked_at.deep_view(),
            confirmation_sent_at: self.confirmation_sent_at.deep_view(),
            confirmed_at: self.confirmed_at.deep_view(),
            expires_on: self.expires_on.deep_view(),
            is_active: self.is_active,
            remove_upon_expiry: self.remove_upon_expiry,
        }
    }
}

impl View for Forwarding {
    type V = ForwardingView;

    open spec fn view(&self) -> ForwardingView {
        self.deep_view()
    }
}

impl Entity for Forwarding {
    open spec fn decoded(j: JsonView) -> Result<ForwardingView, Seq<char>> {
        if j.text("address"@) is None {
            Err(unexpected_of("address"@))
        } else if j.optional_text("blocked_at"@) is None {
            Err(unexpected_of("blocked_at"@))
        } else if j.optional_text("confirmation_sent_at"@) is None {
            Err(unexpected_of("confirmation_sent_at"@))
        } else if j.optional_text("confirmed_at"@) is None {
            Err(unexpected_of("confirmed_at"@))
        } else if j.optional_text("expires_on"@) is None {
            Err(unexpected_of("expires_on"@))
        } else if j.flag("is_active"@) is None {
            Err(unexpected_of("is_active"@))
        } else if j.optional_flag("remove_upon_expiry"@) is None {
            Err(unexpected_of("remove_upon_expiry"@))
        } else {
            Ok(
                ForwardingView {
                    address: j.text("address"@)->0,
                    blocked_at: j.optional_text("blocked_at"@)->0,
                    confirmation_sent_at: j.optional_text("confirmation_sent_at"@)->0,
                    confirmed_at: j.optional_text("confirmed_at"@)->0,
                    expires_on: j.optional_text("expires_on"@)->0,
                    is_active: j.flag("is_active"@)->0,
                    remove_upon_expiry: j.optional_flag("remove_upon_expiry"@)->0,
                },
            )
        }
    }

    open spec fn envelope() -> Seq<char> {
        "forwardings"@
    }

    fn from_json(j: &Json) -> (r: Result<Forwarding, Error>) {
        let address = j.text("address")?;
        let blocked_at = j.optional_text("blocked_at")?;
        let confirmation_sent_at = j.optional_text("confirmation_sent_at")?;
        let confirmed_at = j.optional_text("confirmed_at")?;
        let expires_on = j.optional_text("expires_on")?;
        let is_active = j.flag("is_active")?;
        let remove_upon_expiry = j.optional_flag("remove_upon_expiry")?;
        Ok(
            Forwarding {
                address,
                blocked_at,
                confirmation_sent_at,
                confirmed_at,
                expires_on,
                is_active,
                remove_upon_expiry,
            },
        )
    }

    fn envelope_key() -> (key: &'static str) {
        "forwardings"
    }
}

/// The flag of a forwarding reads as `true` where the document says `true`,
/// and as `false` otherwise: where it says `false`, where it says `null`,
/// and where it leaves the member out.
pub proof fn lemma_forwarding_flags_default_to_false(j: JsonView)
    requires
        Forwarding::decoded(j) is Ok,
    ensures
        Forwarding::decoded(j)->Ok_0.is_active == j.says_true("is_active"@),
{
}

/// Request body for creating a new forwarding address.
#[derive(Debug, Clone)]
pub struct CreateForwarding {
    pub address: String,
}

impl CreateForwarding {
    /// Creates a new forwarding creation request.
    pub fn new(address: &str) -> (request: CreateForwarding)
        ensures
            request.address@ == address@,
    {
        CreateForwarding {
            address: String::from_str(address),
        }
    }

    /// One slot for each field, in the order in which the payload lists
    /// them.
    pub open spec fn slots(&self) -> Seq<Option<FieldView>> {
        seq![
            text_slot_of("address"@, Some(self.address)),
        ]
    }

    /// The fields that the request sends: the required ones, and of the
    /// others those that were set.
    pub fn payload(&self) -> (fields: Vec<Field>)
        ensures
            fields.deep_view() == filled(self.slots()),
    {
        let slots = vec![
            set_text_slot("address", self.address.as_str()),
        ];
        assert(slots.deep_view() =~= self.slots());
        collect(slots)
    }
}

/// Request body for updating an existing forwarding address.
#[derive(Debug, Clone)]
pub struct UpdateForwarding {
    pub is_active: Option<bool>,
    pub expires_on: Option<String>,
    pub remove_upon_expiry: Option<bool>,
}

impl Default for UpdateForwarding {
    /// A request that sets nothing.
    fn default() -> (request: UpdateForwarding)
        ensures
            request.is_active is None,
            request.expires_on is None,
            request.remove_upon_expiry is None,
    {
        UpdateForwarding {
            is_active: None,
            expires_on: None,
            remove_upon_expiry: None,
        }
    }
}

impl UpdateForwarding {
    /// One slot for each field, in the order in which the payload lists
    /// them.
    pub open spec fn slots(&self) -> Seq<Option<FieldView>> {
        seq![
            flag_slot_of("is_active"@, self.is_active),
            text_slot_of("expires_on"@, self.expires_on),
            flag_slot_of("remove_upon_expiry"@, self.remove_upon_expiry),
        ]
    }

    /// The fields that the request sends: those that were set, and no
    /// others.
    pub fn payload(&self) -> (fields: Vec<Field>)
        ensures
            fields.deep_view() == filled(self.slots()),
    {
        let slots = vec![
            flag_slot("is_active", &self.is_active),
            text_slot("expires_on", &self.expires_on),
            flag_slot("remove_upon_expiry", &self.remove_upon_expiry),
        ];
        assert(slots.deep_view() =~= self.slots());
        collect(slots)
    }
}

} // verus!
