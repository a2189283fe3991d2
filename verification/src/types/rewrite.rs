//! Rewrite rules: patterns of local parts that forward to destinations.

use vstd::prelude::*;
use crate::error::Error;
use crate::json::{Json, JsonView, unexpected_of};
use crate::payload::{
    Field, FieldView, collect, filled, number_slot, number_slot_of, set_text_slot, text_slot,
    text_slot_of,
};
use crate::text::{join, joined};
use crate::types::Entity;

verus! {

/// A rewrite rule that matches patterns and forwards to destinations.
#[derive(Debug, Clone)]
pub struct Rewrite {
    pub name: String,
    pub domain_name: Option<String>,
    pub local_part_rule: String,
    pub order_num: Option<i32>,
    pub destinations: Vec<String>,
}

/// The mathematical content of a [`Rewrite`].
pub struct RewriteView {
    pub name: Seq<char>,
    pub domain_name: Option<Seq<char>>,
    pub local_part_rule: Seq<char>,
    pub order_num: Option<i32>,
    pub destinations: Seq<Seq<char>>,
}

impl DeepView for Rewrite {
    type V = RewriteView;

    open spec fn deep_view(&self) -> RewriteView {
        RewriteView {
            name: self.name@,
            domain_name: self.domain_name.deep_view(),
            local_part_rule: self.local_part_rule@,
            order_num: self.order_num,
            destinations: self.destinations.deep_view(),
        }
    }
}

impl View for Rewrite {
    type V = RewriteView;

    open spec fn view(&self) -> RewriteView {
        self.deep_view()
    }
}

impl Entity for Rewrite {
    open spec fn decoded(j: JsonView) -> Result<RewriteView, Seq<char>> {
        if j.text("name"@) is None {
            Err(unexpected_of("name"@))
        } else if j.optional_text("domain_name"@) is None {
            Err(unexpected_of("domain_name"@))
        } else if j.text("local_part_rule"@) is None {
            Err(unexpected_of("local_part_rule"@))
        } else if j.optional_number("order_num"@) is None {
            Err(unexpected_of("order_num"@))
        } else if j.texts("destinations"@) is None {
            Err(unexpected_of("destinations"@))
        } else {
            Ok(
                RewriteView {
                    name: j.text("name"@)->0,
                    domain_name: j.optional_text("domain_name"@)->0,
                    local_part_rule: j.text("local_part_rule"@)->0,
                    order_num: j.optional_number("order_num"@)->0,
                    destinations: j.texts("destinations"@)->0,
                },
            )
        }
    }

    open spec fn envelope() -> Seq<char> {
        "rewrites"@
    }

    fn from_json(j: &Json) -> (r: Result<Rewrite, Error>) {
        let name = j.text("name")?;
        let domain_name = j.optional_text("domain_name")?;
        let local_part_rule = j.text("local_part_rule")?;
        let order_num = j.optional_number("order_num")?;
        let destinations = j.texts("destinations")?;
        Ok(
            Rewrite {
                name,
                domain_name,
                local_part_rule,
                order_num,
                destinations,
            },
        )
    }

    fn envelope_key() -> (key: &'static str) {
        "rewrites"
    }
}

/// The flag of a rewrite reads as `true` where the document says `true`,
/// and as `false` otherwise: where it says `false`, where it says `null`,
/// and where it leaves the member out.
pub proof fn lemma_rewrite_flags_default_to_false(j: JsonView)
    requires
        Rewrite::decoded(j) is Ok,
    ensures
{
}

/// Request body for creating a new rewrite rule.
#[derive(Debug, Clone)]
pub struct CreateRewrite {
    /// A slug identifier for the rewrite rule.
    pub name: String,
    /// Pattern to match (e.g., "support-*" or "sales-*").
    pub local_part_rule: String,
    /// Destinations as a comma-separated string.
    pub destinations: String,
    pub order_num: Option<i32>,
}

impl CreateRewrite {
    /// Creates a new rewrite rule creation request.
    pub fn new(name: &str, local_part_rule: &str, destinations: &str) -> (request: CreateRewrite)
        ensures
            request.name@ == name@,
            request.local_part_rule@ == local_part_rule@,
            request.destinations@ == destinations@,
            request.order_num is None,
    {
        CreateRewrite {
            name: String::from_str(name),
            local_part_rule: String::from_str(local_part_rule),
            destinations: String::from_str(destinations),
            order_num: None,
        }
    }

    /// Creates a new rewrite rule from a list of destination addresses,
    /// which it joins with commas.
    pub fn from_destinations(
        name: &str,
        local_part_rule: &str,
        destinations: &[String],
    ) -> (request: CreateRewrite)
        ensures
            request.name@ == name@,
            request.local_part_rule@ == local_part_rule@,
            request.destinations@ == joined(destinations.deep_view(), ","@),
            request.order_num is None,
    {
        CreateRewrite {
            name: String::from_str(name),
            local_part_rule: String::from_str(local_part_rule),
            destinations: join(destinations, ","),
            order_num: None,
        }
    }

    /// One slot for each field, in the order in which the payload lists
    /// them.
    pub open spec fn slots(&self) -> Seq<Option<FieldView>> {
        seq![
            text_slot_of("name"@, Some(self.name)),
            text_slot_of("local_part_rule"@, Some(self.local_part_rule)),
            text_slot_of("destinations"@, Some(self.destinations)),
            number_slot_of("order_num"@, self.order_num),
        ]
    }

    /// The fields that the request sends: the required ones, and of the
    /// others those that were set.
    pub fn payload(&self) -> (fields: Vec<Field>)
        ensures
            fields.deep_view() == filled(self.slots()),
    {
        let slots = vec![
            set_text_slot("name", self.name.as_str()),
            set_text_slot("local_part_rule", self.local_part_rule.as_str()),
            set_text_slot("destinations", self.destinations.as_str()),
            number_slot("order_num", &self.order_num),
        ];
        assert(slots.deep_view() =~= self.slots());
        collect(slots)
    }
}

/// Request body for updating an existing rewrite rule.
#[derive(Debug, Clone)]
pub struct UpdateRewrite {
    pub name: Option<String>,
    pub local_part_rule: Option<String>,
    pub destinations: Option<String>,
    pub order_num: Option<i32>,
}

impl Default for UpdateRewrite {
    /// A request that sets nothing.
    fn default() -> (request: UpdateRewrite)
        ensures
            request.name is None,
            request.local_part_rule is None,
            request.destinations is None,
            request.order_num is None,
    {
        UpdateRewrite {
            name: None,
            local_part_rule: None,
            destinations: None,
            order_num: None,
        }
    }
}

impl UpdateRewrite {
    /// One slot for each field, in the order in which the payload lists
    /// them.
    pub open spec fn slots(&self) -> Seq<Option<FieldView>> {
        seq![
            text_slot_of("name"@, self.name),
            text_slot_of("local_part_rule"@, self.local_part_rule),
            text_slot_of("destinations"@, self.destinations),
            number_slot_of("order_num"@, self.order_num),
        ]
    }

    /// The fields that the request sends: those that were set, and no
    /// others.
    pub fn payload(&self) -> (fields: Vec<Field>)
        ensures
            fields.deep_view() == filled(self.slots()),
    {
        let slots = vec![
            text_slot("name", &self.name),
            text_slot("local_part_rule", &self.local_part_rule),
            text_slot("destinations", &self.destinations),
            number_slot("order_num", &self.order_num),
        ];
        assert(slots.deep_view() =~= self.slots());
        collect(slots)
    }
}

} // verus!
