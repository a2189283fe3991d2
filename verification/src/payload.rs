//! Request payloads: the fields that a request sets, and their JSON text.
//!
//! A payload lists only the fields that were set. A field that was left
//! unset does not appear in it at all, so the service keeps its value.

use vstd::prelude::*;
use crate::text::{decimal, join, joined, push_decimal};

verus! {

/// The value of one payload field.
#[derive(Debug, Clone)]
pub enum FieldValue {
    Text(String),
    Flag(bool),
    Number(i32),
    Texts(Vec<String>),
}

/// One field of a payload.
#[derive(Debug, Clone)]
pub struct Field {
    pub name: String,
    pub value: FieldValue,
}

/// The mathematical content of a [`FieldValue`].
pub enum FieldValueView {
    Text(Seq<char>),
    Flag(bool),
    Number(i32),
    Texts(Seq<Seq<char>>),
}

/// The mathematical content of a [`Field`].
pub struct FieldView {
    pub name: Seq<char>,
    pub value: FieldValueView,
}

impl DeepView for FieldValue {
    type V = FieldValueView;

    open spec fn deep_view(&self) -> FieldValueView {
        match self {
            FieldValue::Text(s) => FieldValueView::Text(s@),
            FieldValue::Flag(b) => FieldValueView::Flag(*b),
            FieldValue::Number(n) => FieldValueView::Number(*n),
            FieldValue::Texts(list) => FieldValueView::Texts(list.deep_view()),
        }
    }
}

impl View for FieldValue {
    type V = FieldValueView;

    open spec fn view(&self) -> FieldValueView {
        self.deep_view()
    }
}

impl DeepView for Field {
    type V = FieldView;

    open spec fn deep_view(&self) -> FieldView {
        FieldView { name: self.name@, value: self.value.deep_view() }
    }
}

impl View for Field {
    type V = FieldView;

    open spec fn view(&self) -> FieldView {
        self.deep_view()
    }
}

/// The slot of a text field: filled where the field was set.
pub open spec fn text_slot_of(name: Seq<char>, value: Option<String>) -> Option<FieldView> {
    match value {
        Some(s) => Some(FieldView { name, value: FieldValueView::Text(s@) }),
        None => None,
    }
}

/// The slot of a boolean field.
pub open spec fn flag_slot_of(name: Seq<char>, value: Option<bool>) -> Option<FieldView> {
    match value {
        Some(b) => Some(FieldView { name, value: FieldValueView::Flag(b) }),
        None => None,
    }
}

/// The slot of an integer field.
pub open spec fn number_slot_of(name: Seq<char>, value: Option<i32>) -> Option<FieldView> {
    match value {
        Some(n) => Some(FieldView { name, value: FieldValueView::Number(n) }),
        None => None,
    }
}

/// The slot of a field that holds a list of texts.
pub open spec fn texts_slot_of(name: Seq<char>, value: Option<Vec<String>>) -> Option<FieldView> {
    match value {
        Some(list) => Some(FieldView { name, value: FieldValueView::Texts(list.deep_view()) }),
        None => None,
    }
}

/// The filled slots, in order.
pub open spec fn filled(slots: Seq<Option<FieldView>>) -> Seq<FieldView>
    decreases slots.len(),
{
    if slots.len() == 0 {
        Seq::empty()
    } else {
        match slots.last() {
            Some(field) => filled(slots.drop_last()).push(field),
            None => filled(slots.drop_last()),
        }
    }
}

/// How many of the slots are filled.
pub open spec fn count_filled(slots: Seq<Option<FieldView>>) -> nat
    decreases slots.len(),
{
    if slots.len() == 0 {
        0
    } else {
        count_filled(slots.drop_last()) + if slots.last() is Some {
            1nat
        } else {
            0nat
        }
    }
}

/// A payload has one field for each filled slot, and every field of it
/// comes out of a filled slot.
pub proof fn lemma_filled_from_slots(slots: Seq<Option<FieldView>>)
    ensures
        filled(slots).len() == count_filled(slots),
        forall|i: int|
            0 <= i < filled(slots).len() ==> slots.contains(Some(#[trigger] filled(slots)[i])),
        forall|k: int|
            0 <= k < slots.len() && slots[k] is Some ==> filled(slots).contains(
                (#[trigger] slots[k])->0,
            ),
    decreases slots.len(),
{
    if slots.len() > 0 {
        let front = slots.drop_last();
        lemma_filled_from_slots(front);
        assert forall|i: int| 0 <= i < filled(slots).len() implies slots.contains(
            Some(#[trigger] filled(slots)[i]),
        ) by {
            if i < filled(front).len() {
                let field = filled(front)[i];
                assert(front.contains(Some(field)));
                let k = choose|k: int| 0 <= k < front.len() && front[k] == Some(field);
                assert(slots[k] == Some(field));
            } else {
                assert(slots[slots.len() - 1] == Some(filled(slots)[i]));
            }
        }
        assert forall|k: int| 0 <= k < slots.len() && slots[k] is Some implies filled(
            slots,
        ).contains((#[trigger] slots[k])->0) by {
            if k < front.len() {
                assert(front[k] == slots[k]);
                assert(filled(front).contains(front[k]->0));
                let i = choose|i: int|
                    0 <= i < filled(front).len() && filled(front)[i] == front[k]->0;
                assert(filled(slots)[i] == slots[k]->0);
            } else {
                assert(filled(slots)[filled(slots).len() - 1] == slots[k]->0);
            }
        }
    }
}

/// Where nothing was set, the payload is empty.
pub proof fn lemma_filled_none(slots: Seq<Option<FieldView>>)
    requires
        forall|i: int| 0 <= i < slots.len() ==> slots[i] is None,
    ensures
        filled(slots) == Seq::<FieldView>::empty(),
    decreases slots.len(),
{
    if slots.len() > 0 {
        lemma_filled_none(slots.drop_last());
    }
}

/// Where exactly one field was set, the payload holds that field and no
/// other.
pub proof fn lemma_filled_single(slots: Seq<Option<FieldView>>, k: int)
    requires
        0 <= k < slots.len(),
        slots[k] is Some,
        forall|i: int| 0 <= i < slots.len() && i != k ==> slots[i] is None,
    ensures
        filled(slots) == seq![slots[k]->0],
    decreases slots.len(),
{
    let front = slots.drop_last();
    if k == slots.len() - 1 {
        lemma_filled_none(front);
        assert(filled(slots) =~= seq![slots[k]->0]);
    } else {
        lemma_filled_single(front, k);
    }
}

/// The slot of a text field.
pub fn text_slot(name: &str, value: &Option<String>) -> (slot: Option<Field>)
    ensures
        slot.deep_view() == text_slot_of(name@, *value),
{
    match value {
        Some(s) => Some(Field { name: String::from_str(name), value: FieldValue::Text(s.clone()) }),
        None => None,
    }
}

/// The slot of a text field that is always set.
pub fn set_text_slot(name: &str, value: &str) -> (slot: Option<Field>)
    ensures
        slot.deep_view() == Some(FieldView { name: name@, value: FieldValueView::Text(value@) }),
{
    Some(Field { name: String::from_str(name), value: FieldValue::Text(String::from_str(value)) })
}

/// The slot of a boolean field.
pub fn flag_slot(name: &str, value: &Option<bool>) -> (slot: Option<Field>)
    ensures
        slot.deep_view() == flag_slot_of(name@, *value),
{
    match value {
        Some(b) => Some(Field { name: String::from_str(name), value: FieldValue::Flag(*b) }),
        None => None,
    }
}

/// The slot of an integer field.
pub fn number_slot(name: &str, value: &Option<i32>) -> (slot: Option<Field>)
    ensures
        slot.deep_view() == number_slot_of(name@, *value),
{
    match value {
        Some(n) => Some(Field { name: String::from_str(name), value: FieldValue::Number(*n) }),
        None => None,
    }
}

/// Copies a list of texts.
pub fn copy_texts(list: &Vec<String>) -> (out: Vec<String>)
    ensures
        out.deep_view() == list.deep_view(),
{
    let mut out: Vec<String> = Vec::new();
    let mut i: usize = 0;
    while i < list.len()
        invariant
            i <= list.len(),
            out.len() == i,
            forall|k: int| 0 <= k < i ==> (#[trigger] out[k])@ == list[k]@,
        decreases list.len() - i,
    {
        out.push(list[i].clone());
        i = i + 1;
    }
    assert(out.deep_view() =~= list.deep_view());
    out
}

/// The slot of a field that holds a list of texts.
pub fn texts_slot(name: &str, value: &Option<Vec<String>>) -> (slot: Option<Field>)
    ensures
        slot.deep_view() == texts_slot_of(name@, *value),
{
    match value {
        Some(list) => Some(
            Field { name: String::from_str(name), value: FieldValue::Texts(copy_texts(list)) },
        ),
        None => None,
    }
}

/// Keeps the filled slots, in order.
pub fn collect(slots: Vec<Option<Field>>) -> (fields: Vec<Field>)
    ensures
        fields.deep_view() == filled(slots.deep_view()),
{
    let mut fields: Vec<Field> = Vec::new();
    let mut slots = slots;
    let ghost all = slots.deep_view();
    let n: usize = slots.len();
    let mut i: usize = 0;
    assert(all.take(0) =~= Seq::<Option<FieldView>>::empty());
    assert(fields.deep_view() =~= Seq::<FieldView>::empty());
    while i < n
        invariant
            i <= n,
            n == slots.len(),
            all.len() == n,
            forall|k: int| i <= k < n ==> (#[trigger] slots[k]).deep_view() == all[k],
            fields.deep_view() == filled(all.take(i as int)),
        decreases n - i,
    {
        proof {
            assert(all.take(i + 1).drop_last() =~= all.take(i as int));
            assert(all.take(i + 1).last() == all[i as int]);
        }
        let ghost before = fields.deep_view();
        let mut slot: Option<Field> = None;
        std::mem::swap(&mut slot, &mut slots[i]);
        match slot {
            Some(field) => {
                fields.push(field);
                assert(fields.deep_view() =~= before.push(field.deep_view()));
            },
            None => {},
        }
        i = i + 1;
    }
    assert(all.take(n as int) =~= all);
    fields
}

/// The JSON string literal that `serde_json` writes for a text: the text
/// between double quotes, with its escapes.
pub uninterp spec fn quoted(text: Seq<char>) -> Seq<char>;

/// The JSON text of a field's value.
pub open spec fn value_text(value: FieldValueView) -> Seq<char> {
    match value {
        FieldValueView::Text(s) => quoted(s),
        FieldValueView::Flag(b) => if b {
            "true"@
        } else {
            "false"@
        },
        FieldValueView::Number(n) => decimal(n as int),
        FieldValueView::Texts(list) => "["@ + joined(
            list.map_values(|s: Seq<char>| quoted(s)),
            ","@,
        ) + "]"@,
    }
}

/// The JSON text of one field: its quoted name, a colon, its value.
pub open spec fn field_text(field: FieldView) -> Seq<char> {
    quoted(field.name) + ":"@ + value_text(field.value)
}

/// The JSON object that holds the fields in their order, written without
/// any white space.
pub open spec fn rendered(fields: Seq<FieldView>) -> Seq<char> {
    "{"@ + joined(fields.map_values(|f: FieldView| field_text(f)), ","@) + "}"@
}

/// A payload of one field is written as an object with that one member.
pub proof fn lemma_rendered_single(field: FieldView)
    ensures
        rendered(seq![field]) == "{"@ + field_text(field) + "}"@,
{
    let parts = seq![field].map_values(|f: FieldView| field_text(f));
    assert(parts.len() == 1);
    assert(parts[0] == field_text(field));
}

/// A request that sets exactly one field sends an object with exactly that
/// member.
pub proof fn lemma_single_field_payload(slots: Seq<Option<FieldView>>, k: int)
    requires
        0 <= k < slots.len(),
        slots[k] is Some,
        forall|i: int| 0 <= i < slots.len() && i != k ==> slots[i] is None,
    ensures
        filled(slots) == seq![slots[k]->0],
        rendered(filled(slots)) == "{"@ + field_text(slots[k]->0) + "}"@,
{
    lemma_filled_single(slots, k);
    lemma_rendered_single(slots[k]->0);
}

/// A payload without fields is written as the empty object.
pub proof fn lemma_rendered_empty()
    ensures
        rendered(Seq::<FieldView>::empty()) == "{"@ + "}"@,
{
    let parts = Seq::<FieldView>::empty().map_values(|f: FieldView| field_text(f));
    assert(parts.len() == 0);
    assert(joined(parts, ","@) =~= Seq::<char>::empty());
    assert("{"@ + joined(parts, ","@) + "}"@ =~= "{"@ + "}"@);
}

/// The `Display` of a `serde_json::Value::String`: the JSON string literal
/// of the text. It depends on the text alone.
#[verifier::external_body]
fn quote(text: &str) -> (out: String)
    ensures
        out@ == quoted(text@),
{
    serde_json::Value::from(text).to_string()
}

/// Writes the value of a field as JSON.
pub fn render_value(value: &FieldValue) -> (out: String)
    ensures
        out@ == value_text(value.deep_view()),
{
    match value {
        FieldValue::Text(s) => quote(s.as_str()),
        FieldValue::Flag(b) => {
            if *b {
                String::from_str("true")
            } else {
                String::from_str("false")
            }
        },
        FieldValue::Number(n) => {
            let mut out = String::new();
            push_decimal(&mut out, *n as i64);
            assert(out@ =~= decimal(*n as int));
            out
        },
        FieldValue::Texts(list) => {
            let mut parts: Vec<String> = Vec::new();
            let mut i: usize = 0;
            while i < list.len()
                invariant
                    i <= list.len(),
                    parts.len() == i,
                    forall|k: int| 0 <= k < i ==> (#[trigger] parts[k])@ == quoted(list[k]@),
                decreases list.len() - i,
            {
                parts.push(quote(list[i].as_str()));
                i = i + 1;
            }
            assert(parts.deep_view() =~= list.deep_view().map_values(|s: Seq<char>| quoted(s)));
            let mut out = String::from_str("[");
            let inner = join(parts.as_slice(), ",");
            out.append(inner.as_str());
            out.append("]");
            out
        },
    }
}

/// Writes a payload as a JSON object.
pub fn render(fields: &Vec<Field>) -> (out: String)
    ensures
        out@ == rendered(fields.deep_view()),
{
    let mut parts: Vec<String> = Vec::new();
    let mut i: usize = 0;
    while i < fields.len()
        invariant
            i <= fields.len(),
            parts.len() == i,
            forall|k: int|
                0 <= k < i ==> (#[trigger] parts[k])@ == field_text(fields[k].deep_view()),
        decreases fields.len() - i,
    {
        let mut part = quote(fields[i].name.as_str());
        part.append(":");
        let value = render_value(&fields[i].value);
        part.append(value.as_str());
        parts.push(part);
        i = i + 1;
    }
    assert(parts.deep_view() =~= fields.deep_view().map_values(|f: FieldView| field_text(f)));
    let mut out = String::from_str("{");
    let inner = join(parts.as_slice(), ",");
    out.append(inner.as_str());
    out.append("}");
    out
}

} // verus!
