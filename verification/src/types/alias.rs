//! Aliases: addresses that forward to one or more destinations.

use vstd::prelude::*;
use crate::error::Error;
use crate::json::{Json, JsonView, unexpected_of};
use crate::payload::{
    Field, FieldView, collect, filled, flag_slot, flag_slot_of, set_text_slot, text_slot,
    text_slot_of,
};
use crate::text::{join, joined};
use crate::types::Entity;

verus! {

/// An email alias that forwards to one or more destinations.
#[derive(Debug, Clone)]
pub struct Alias {
    pub local_part: String,
    pub domain_name: String,
    pub address: String,
    pub is_internal: bool,
    pub destinations: Vec<String>,
}

/// The mathematical content of an [`Alias`].
pub struct AliasView {
    pub local_part: Seq<char>,
    pub domain_name: Seq<char>,
    pub address: Seq<char>,
    pub is_internal: bool,
    pub destinations: Seq<Seq<char>>,
}

impl DeepView for Alias {
    type V = AliasView;

    open spec fn deep_view(&self) -> AliasView {
        AliasView {
            local_part: self.local_part@,
            domain_name: self.domain_name@,
            address: self.address@,
            is_internal: self.is_internal,
            destinations: self.destinations.deep_view(),
        }
    }
}

impl View for Alias {
    type V = AliasView;

    open spec fn view(&self) -> AliasView {
        self.deep_view()
    }
}

impl Entity for Alias {
    open spec fn decoded(j: JsonView) -> Result<AliasView, Seq<char>> {
        if j.text("local_part"@) is None {
            Err(unexpected_of("local_part"@))
        } else if j.text("domain_name"@) is None {
            Err(unexpected_of("domain_name"@))
        } else if j.text("address"@) is None {
            Err(unexpected_of("address"@))
        } else if j.flag("is_internal"@) is None {
            Err(unexpected_of("is_internal"@))
        } else if j.texts("destinations"@) is None {
            Err(unexpected_of("destinations"@))
        } else {
            Ok(
                AliasView {
                    local_part: j.text("local_part"@)->0,
                    domain_name: j.text("domain_name"@)->0,
                    address: j.text("address"@)->0,
                    is_internal: j.flag("is_internal"@)->0,
                    destinations: j.texts("destinations"@)->0,
                },
            )
        }
    }

    open spec fn envelope() -> Seq<char> {
        "address_aliases"@
    }

    fn from_json(j: &Json) -> (r: Result<Alias, Error>) {
        let local_part = j.text("local_part")?;
        let domain_name = j.text("domain_name")?;
        let address = j.text("address")?;
        let is_internal = j.flag("is_internal")?;
        let destinations = j.texts("destinations")?;
        Ok(
            Alias {
                local_part,
                domain_name,
                address,
                is_internal,
                destinations,
            },
        )
    }

    fn envelope_key() -> (key: &'static str) {
        "address_aliases"
    }
}

/// The flag of an alias reads as `true` where the document says `true`,
/// and as `false` otherwise: where it says `false`, where it says `null`,
/// and where it leaves the member out.
pub proof fn lemma_alias_flags_default_to_false(j: JsonView)
    requires
        Alias::decoded(j) is Ok,
    ensures
        Alias::decoded(j)->Ok_0.is_internal == j.says_true("is_internal"@),
{
}

/// Request body for creating a new alias.
#[derive(Debug, Clone)]
pub struct CreateAlias {
    pub local_part: String,
    /// Destinations as a comma-separated string (e.g., "one@domain.tld,two@domain.tld").
    pub destinations: String,
    pub is_internal: Option<bool>,
}

impl CreateAlias {
    /// Creates a new alias creation request.
    pub fn new(local_part: &str, destinations: &str) -> (request: CreateAlias)
        ensures
            request.local_part@ == local_part@,
            request.destinations@ == destinations@,
            request.is_internal is None,
    {
        CreateAlias {
            local_part: String::from_str(local_part),
            destinations: String::from_str(destinations),
            is_internal: None,
        }
    }

    /// Creates a new alias creation request from a list of destination
    /// addresses, which it joins with commas.
    pub fn from_destinations(local_part: &str, destinations: &[String]) -> (request: CreateAlias)
        ensures
            request.local_part@ == local_part@,
            request.destinations@ == joined(destinations.deep_view(), ","@),
            request.is_internal is None,
    {
        CreateAlias {
            local_part: String::from_str(local_part),
            destinations: join(destinations, ","),
            is_internal: None,
        }
    }

    /// One slot for each field, in the order in which the payload lists
    /// them.
    pub open spec fn slots(&self) -> Seq<Option<FieldView>> {
        seq![
            text_slot_of("local_part"@, Some(self.local_part)),
            text_slot_of("destinations"@, Some(self.destinations)),
            flag_slot_of("is_internal"@, self.is_internal),
        ]
    }

    /// The fields that the request sends: the required ones, and of the
    /// others those that were set.
    pub fn payload(&self) -> (fields: Vec<Field>)
        ensures
            fields.deep_view() == filled(self.slots()),
    {
        let slots = vec![
            set_text_slot("local_part", self.local_part.as_str()),
            set_text_slot("destinations", self.destinations.as_str()),
            flag_slot("is_internal", &self.is_internal),
        ];
        assert(slots.deep_view() =~= self.slots());
        collect(slots)
    }
}

/// Request body for updating an existing alias.
#[derive(Debug, Clone)]
pub struct UpdateAlias {
    /// Destinations as a comma-separated string.
    pub destinations: Option<String>,
    pub is_internal: Option<bool>,
}

impl Default for UpdateAlias {
    /// A request that sets nothing.
    fn default() -> (request: UpdateAlias)
        ensures
            request.destinations is None,
            request.is_internal is None,
    {
        UpdateAlias {
            destinations: None,
            is_internal: None,
        }
    }
}

impl UpdateAlias {
    /// Creates an update request with new destinations.
    pub fn with_destinations(destinations: &str) -> (request: UpdateAlias)
        ensures
            request.destinations matches Some(s) && s@ == destinations@,
            request.is_internal is None,
    {
        UpdateAlias { destinations: Some(String::from_str(destinations)), is_internal: None }
    }

    /// One slot for each field, in the order in which the payload lists
    /// them.
    pub open spec fn slots(&self) -> Seq<Option<FieldView>> {
        seq![
            text_slot_of("destinations"@, self.destinations),
            flag_slot_of("is_internal"@, self.is_internal),
        ]
    }

    /// The fields that the request sends: those that were set, and no
    /// others.
    pub fn payload(&self) -> (fields: Vec<Field>)
        ensures
            fields.deep_view() == filled(self.slots()),
    {
        let slots = vec![
            text_slot("destinations", &self.destinations),
            flag_slot("is_internal", &self.is_internal),
        ];
        assert(slots.deep_view() =~= self.slots());
        collect(slots)
    }
}

} // verus!
