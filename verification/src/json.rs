//! JSON documents as the client reads them.

use crate::error::{Error, ErrorView};
use vstd::prelude::*;

verus! {

/// A JSON document.
#[derive(Debug)]
pub enum Json {
    Null,
    Bool(bool),
    /// A number; its value where it is an integer in the range of `i64`.
    Number(Option<i64>),
    Text(String),
    Array(Vec<Json>),
    Object(Vec<Member>),
}

/// One member of a JSON object.
#[derive(Debug)]
pub struct Member {
    pub name: String,
    pub value: Json,
}

/// The mathematical content of a [`Json`] document.
pub enum JsonView {
    Null,
    Bool(bool),
    Number(Option<i64>),
    Text(Seq<char>),
    Array(Seq<JsonView>),
    Object(Seq<(Seq<char>, JsonView)>),
}

impl View for Json {
    type V = JsonView;

    open spec fn view(&self) -> JsonView {
        content(self)
    }
}

impl DeepView for Json {
    type V = JsonView;

    open spec fn deep_view(&self) -> JsonView {
        content(self)
    }
}

/// What a document holds.
pub open spec fn content(j: &Json) -> JsonView
    decreases j, 0nat,
{
    match j {
        Json::Null => JsonView::Null,
        Json::Bool(b) => JsonView::Bool(*b),
        Json::Number(n) => JsonView::Number(*n),
        Json::Text(s) => JsonView::Text(s@),
        Json::Array(items) => JsonView::Array(items_content(items, items.len() as nat)),
        Json::Object(members) => JsonView::Object(members_content(members, members.len() as nat)),
    }
}

/// What the first `n` of `items` hold.
pub open spec fn items_content(items: &Vec<Json>, n: nat) -> Seq<JsonView>
    decreases items, n,
{
    if n == 0 || n > items.len() {
        Seq::empty()
    } else {
        items_content(items, (n - 1) as nat).push(content(&items[n - 1]))
    }
}

/// What the first `n` of `members` hold, each with its name.
pub open spec fn members_content(members: &Vec<Member>, n: nat) -> Seq<(Seq<char>, JsonView)>
    decreases members, n,
{
    if n == 0 || n > members.len() {
        Seq::empty()
    } else {
        members_content(members, (n - 1) as nat).push(
            (members[n - 1].name@, content(&members[n - 1].value)),
        )
    }
}

/// An array holds what its items hold, one for one.
pub proof fn lemma_items_content(items: &Vec<Json>, n: nat)
    requires
        n <= items.len(),
    ensures
        items_content(items, n).len() == n,
        forall|k: int| 0 <= k < n ==> items_content(items, n)[k] == (#[trigger] items[k])@,
        n == items.len() ==> items_content(items, n) == items.deep_view(),
    decreases n,
{
    if n > 0 {
        lemma_items_content(items, (n - 1) as nat);
    }
    if n == items.len() {
        assert(items_content(items, n) =~= items.deep_view());
    }
}

/// An object holds what its members hold, one for one.
pub proof fn lemma_members_content(members: &Vec<Member>, n: nat)
    requires
        n <= members.len(),
    ensures
        members_content(members, n).len() == n,
        forall|k: int|
            0 <= k < n ==> members_content(members, n)[k] == (
                (#[trigger] members[k]).name@,
                members[k].value@,
            ),
    decreases n,
{
    if n > 0 {
        lemma_members_content(members, (n - 1) as nat);
    }
}

/// `serde_json::Value`, of which nothing is known but what [`content_of`]
/// names.
#[verifier::external_type_specification]
#[verifier::external_body]
pub struct ExValue(serde_json::Value);

/// What `serde_json::from_str` gives for a text: the value that the text
/// holds, or, where the text is no JSON document, the message of the error.
pub uninterp spec fn reading_of(text: Seq<char>) -> Result<serde_json::Value, Seq<char>>;

/// What a `serde_json` value holds: its variant and, member by member in the
/// order in which the value hands them out, what is inside.
pub uninterp spec fn content_of(value: serde_json::Value) -> JsonView;

/// `serde_json::from_str` for a `serde_json::Value`, with the error as the
/// message that its `Display` writes. Whether a text is a JSON document,
/// and which, depends on the text alone, and so does the message.
#[verifier::external_body]
fn read_value(text: &str) -> (r: Result<serde_json::Value, String>)
    ensures
        match r {
            Ok(value) => reading_of(text@) == Ok::<serde_json::Value, Seq<char>>(value),
            Err(message) => reading_of(text@) == Err::<serde_json::Value, Seq<char>>(message@),
        },
{
    serde_json::from_str::<serde_json::Value>(text).map_err(|e| e.to_string())
}

/// Copies a `serde_json::Value` into a [`Json`], variant by variant; of a
/// number it keeps what `Number::as_i64` gives.
#[verifier::external_body]
fn lift(value: &serde_json::Value) -> (r: Json)
    ensures
        r@ == content_of(*value),
{
    match value {
        serde_json::Value::Null => Json::Null,
        serde_json::Value::Bool(b) => Json::Bool(*b),
        serde_json::Value::Number(n) => Json::Number(n.as_i64()),
        serde_json::Value::String(s) => Json::Text(s.clone()),
        serde_json::Value::Array(a) => Json::Array(a.iter().map(lift).collect()),
        serde_json::Value::Object(m) => Json::Object(
            m.iter().map(|(k, v)| Member { name: k.clone(), value: lift(v) }).collect(),
        ),
    }
}

/// The document that a text holds, or the decoder's diagnostic where the
/// text is no JSON.
pub open spec fn parsed(text: Seq<char>) -> Result<JsonView, Seq<char>> {
    match reading_of(text) {
        Ok(value) => Ok(content_of(value)),
        Err(message) => Err(message),
    }
}

/// The diagnostic for a member that is missing or of the wrong kind.
pub open spec fn unexpected_of(name: Seq<char>) -> Seq<char> {
    "missing or invalid field `"@ + name + "`"@
}

/// The first member called `name` among `members`.
pub open spec fn find(members: Seq<(Seq<char>, JsonView)>, name: Seq<char>) -> Option<JsonView>
    decreases members.len(),
{
    if members.len() == 0 {
        None
    } else if members[0].0 == name {
        Some(members[0].1)
    } else {
        find(members.drop_first(), name)
    }
}

/// The texts that `items` hold, where every one of them is a text.
pub open spec fn texts_of(items: Seq<JsonView>) -> Option<Seq<Seq<char>>>
    decreases items.len(),
{
    if items.len() == 0 {
        Some(Seq::empty())
    } else {
        match (texts_of(items.drop_last()), items.last()) {
            (Some(front), JsonView::Text(s)) => Some(front.push(s)),
            _ => None,
        }
    }
}

/// A flag that the service may leave out or send as `null`: both read as
/// `false`. `None` where the member is anything but absent, `null` or a
/// boolean.
pub open spec fn nullable_bool_of(member: Option<JsonView>) -> Option<bool> {
    match member {
        None => Some(false),
        Some(JsonView::Null) => Some(false),
        Some(JsonView::Bool(b)) => Some(b),
        Some(_) => None,
    }
}

impl JsonView {
    /// The member called `name`, where this is an object that has one.
    pub open spec fn member(self, name: Seq<char>) -> Option<JsonView> {
        match self {
            JsonView::Object(members) => find(members, name),
            _ => None,
        }
    }

    /// A member that must be there and be a text.
    pub open spec fn text(self, name: Seq<char>) -> Option<Seq<char>> {
        match self.member(name) {
            Some(JsonView::Text(s)) => Some(s),
            _ => None,
        }
    }

    /// A text member that may be absent or `null`. The outer `None` stands
    /// for a member of another kind.
    pub open spec fn optional_text(self, name: Seq<char>) -> Option<Option<Seq<char>>> {
        match self.member(name) {
            None => Some(None),
            Some(JsonView::Null) => Some(None),
            Some(JsonView::Text(s)) => Some(Some(s)),
            Some(_) => None,
        }
    }

    /// A flag that reads as `false` where it is absent or `null`.
    pub open spec fn flag(self, name: Seq<char>) -> Option<bool> {
        nullable_bool_of(self.member(name))
    }

    /// Whether the member called `name` is there and is `true`.
    pub open spec fn says_true(self, name: Seq<char>) -> bool {
        self.member(name) == Some(JsonView::Bool(true))
    }

    /// A boolean member that may be absent or `null`.
    pub open spec fn optional_flag(self, name: Seq<char>) -> Option<Option<bool>> {
        match self.member(name) {
            None => Some(None),
            Some(JsonView::Null) => Some(None),
            Some(JsonView::Bool(b)) => Some(Some(b)),
            Some(_) => None,
        }
    }

    /// An integer member in the range of `i32` that may be absent or `null`.
    pub open spec fn optional_number(self, name: Seq<char>) -> Option<Option<i32>> {
        match self.member(name) {
            None => Some(None),
            Some(JsonView::Null) => Some(None),
            Some(JsonView::Number(Some(n))) => if i32::MIN <= n <= i32::MAX {
                Some(Some(n as i32))
            } else {
                None
            },
            Some(_) => None,
        }
    }

    /// A list of texts that reads as empty where it is absent.
    pub open spec fn texts(self, name: Seq<char>) -> Option<Seq<Seq<char>>> {
        match self.member(name) {
            None => Some(Seq::empty()),
            Some(JsonView::Array(items)) => texts_of(items),
            Some(_) => None,
        }
    }

    /// A member that must be there and be an array.
    pub open spec fn items(self, name: Seq<char>) -> Option<Seq<JsonView>> {
        match self.member(name) {
            Some(JsonView::Array(items)) => Some(items),
            _ => None,
        }
    }
}

/// Reads a JSON document from a text.
pub fn parse(text: &str) -> (r: Result<Json, Error>)
    ensures
        match r {
            Ok(j) => parsed(text@) == Ok::<JsonView, Seq<char>>(j@),
            Err(e) => parsed(text@) matches Err(message) && e@ == ErrorView::Parse(message),
        },
{
    match read_value(text) {
        Ok(value) => Ok(lift(&value)),
        Err(message) => Err(Error::Parse(message)),
    }
}

/// The failure to report for a member that is missing or of the wrong kind.
pub fn unexpected(name: &str) -> (e: Error)
    ensures
        e@ == ErrorView::Parse(unexpected_of(name@)),
{
    let mut message = String::from_str("missing or invalid field `");
    message.append(name);
    message.append("`");
    Error::Parse(message)
}

/// Reads a flag that the service may leave out or send as `null`.
pub fn nullable_bool(member: Option<&Json>) -> (r: Option<bool>)
    ensures
        r == nullable_bool_of(
            match member {
                Some(j) => Some(j@),
                None => None,
            },
        ),
{
    match member {
        None => Some(false),
        Some(Json::Null) => Some(false),
        Some(Json::Bool(b)) => Some(*b),
        Some(_) => None,
    }
}

impl Json {
    /// The member called `name`, where this is an object that has one.
    pub fn get(&self, name: &str) -> (r: Option<&Json>)
        ensures
            match r {
                Some(j) => self@.member(name@) == Some(j@),
                None => self@.member(name@) is None,
            },
    {
        match self {
            Json::Object(members) => {
                let key = String::from_str(name);
                let ghost all = self@->Object_0;
                let mut i: usize = 0;
                proof {
                    lemma_members_content(members, members.len() as nat);
                    assert(all.skip(0) =~= all);
                }
                while i < members.len()
                    invariant
                        i <= members.len(),
                        key@ == name@,
                        self@ == JsonView::Object(all),
                        all.len() == members.len(),
                        forall|k: int|
                            0 <= k < members.len() ==> all[k] == (
                                (#[trigger] members[k]).name@,
                                members[k].value@,
                            ),
                        find(all, name@) == find(all.skip(i as int), name@),
                    decreases members.len() - i,
                {
                    proof {
                        assert(all.skip(i as int).drop_first() =~= all.skip(i + 1));
                        assert(all.skip(i as int)[0] == all[i as int]);
                    }
                    if members[i].name == key {
                        return Some(&members[i].value);
                    }
                    i = i + 1;
                }
                None
            },
            _ => None,
        }
    }

    /// Reads a member that must be there and be a text.
    pub fn text(&self, name: &str) -> (r: Result<String, Error>)
        ensures
            match r {
                Ok(s) => self@.text(name@) == Some(s@),
                Err(e) => self@.text(name@) is None && e@ == ErrorView::Parse(
                    unexpected_of(name@),
                ),
            },
    {
        match self.get(name) {
            Some(Json::Text(s)) => Ok(s.clone()),
            _ => Err(unexpected(name)),
        }
    }

    /// Reads a text member that may be absent or `null`.
    pub fn optional_text(&self, name: &str) -> (r: Result<Option<String>, Error>)
        ensures
            match r {
                Ok(s) => self@.optional_text(name@) == Some(s.deep_view()),
                Err(e) => self@.optional_text(name@) is None && e@ == ErrorView::Parse(
                    unexpected_of(name@),
                ),
            },
    {
        match self.get(name) {
            None => Ok(None),
            Some(Json::Null) => Ok(None),
            Some(Json::Text(s)) => Ok(Some(s.clone())),
            Some(_) => Err(unexpected(name)),
        }
    }

    /// Reads a flag that counts as `false` where it is absent or `null`.
    pub fn flag(&self, name: &str) -> (r: Result<bool, Error>)
        ensures
            match r {
                Ok(b) => self@.flag(name@) == Some(b),
                Err(e) => self@.flag(name@) is None && e@ == ErrorView::Parse(
                    unexpected_of(name@),
                ),
            },
    {
        match nullable_bool(self.get(name)) {
            Some(b) => Ok(b),
            None => Err(unexpected(name)),
        }
    }

    /// Reads a boolean member that may be absent or `null`.
    pub fn optional_flag(&self, name: &str) -> (r: Result<Option<bool>, Error>)
        ensures
            match r {
                Ok(b) => self@.optional_flag(name@) == Some(b),
                Err(e) => self@.optional_flag(name@) is None && e@ == ErrorView::Parse(
                    unexpected_of(name@),
                ),
            },
    {
        match self.get(name) {
            None => Ok(None),
            Some(Json::Null) => Ok(None),
            Some(Json::Bool(b)) => Ok(Some(*b)),
            Some(_) => Err(unexpected(name)),
        }
    }

    /// Reads an integer member in the range of `i32` that may be absent or
    /// `null`.
    pub fn optional_number(&self, name: &str) -> (r: Result<Option<i32>, Error>)
        ensures
            match r {
                Ok(n) => self@.optional_number(name@) == Some(n),
                Err(e) => self@.optional_number(name@) is None && e@ == ErrorView::Parse(
                    unexpected_of(name@),
                ),
            },
    {
        match self.get(name) {
            None => Ok(None),
            Some(Json::Null) => Ok(None),
            Some(Json::Number(Some(n))) => {
                if -2147483648 <= *n && *n <= 2147483647 {
                    Ok(Some(*n as i32))
                } else {
                    Err(unexpected(name))
                }
            },
            Some(_) => Err(unexpected(name)),
        }
    }

    /// Reads a list of texts that counts as empty where it is absent.
    pub fn texts(&self, name: &str) -> (r: Result<Vec<String>, Error>)
        ensures
            match r {
                Ok(list) => self@.texts(name@) == Some(list.deep_view()),
                Err(e) => self@.texts(name@) is None && e@ == ErrorView::Parse(
                    unexpected_of(name@),
                ),
            },
    {
        match self.get(name) {
            None => {
                let list: Vec<String> = Vec::new();
                assert(list.deep_view() =~= Seq::<Seq<char>>::empty());
                Ok(list)
            },
            Some(Json::Array(items)) => {
                let ghost found = self@.member(name@)->0;
                let ghost all = found->Array_0;
                let mut list: Vec<String> = Vec::new();
                let mut i: usize = 0;
                proof {
                    lemma_items_content(items, items.len() as nat);
                }
                assert(list.deep_view() =~= Seq::<Seq<char>>::empty());
                assert(all.take(0) =~= Seq::<JsonView>::empty());
                while i < items.len()
                    invariant
                        i <= items.len(),
                        self@.member(name@) == Some(JsonView::Array(all)),
                        all.len() == items.len(),
                        forall|k: int| 0 <= k < items.len() ==> all[k] == #[trigger] items[k]@,
                        texts_of(all.take(i as int)) == Some(list.deep_view()),
                    decreases items.len() - i,
                {
                    proof {
                        assert(all.take(i + 1).drop_last() =~= all.take(i as int));
                        assert(all.take(i + 1).last() == items[i as int]@);
                    }
                    match &items[i] {
                        Json::Text(s) => {
                            let ghost before = list.deep_view();
                            list.push(s.clone());
                            assert(list.deep_view() =~= before.push(s@));
                        },
                        _ => {
                            proof {
                                lemma_texts_of_prefix(all, i + 1);
                            }
                            return Err(unexpected(name));
                        },
                    }
                    i = i + 1;
                }
                proof {
                    assert(all.take(i as int) =~= all);
                }
                Ok(list)
            },
            Some(_) => Err(unexpected(name)),
        }
    }

    /// Reads a member that must be there and be an array.
    pub fn items(&self, name: &str) -> (r: Result<&Vec<Json>, Error>)
        ensures
            match r {
                Ok(list) => self@.items(name@) == Some(list.deep_view()),
                Err(e) => self@.items(name@) is None && e@ == ErrorView::Parse(
                    unexpected_of(name@),
                ),
            },
    {
        match self.get(name) {
            Some(Json::Array(items)) => {
                proof {
                    lemma_items_content(items, items.len() as nat);
                }
                Ok(items)
            },
            _ => Err(unexpected(name)),
        }
    }
}

/// A flag that is absent reads as `false`, and so does one that is `null`;
/// one that is there reads as what it says.
pub proof fn lemma_flag_defaults_to_false(j: JsonView, name: Seq<char>)
    ensures
        j.member(name) is None ==> j.flag(name) == Some(false),
        j.member(name) == Some(JsonView::Null) ==> j.flag(name) == Some(false),
        forall|b: bool| j.member(name) == Some(JsonView::Bool(b)) ==> j.flag(name) == Some(b),
        j.flag(name) is Some ==> j.flag(name) == Some(j.says_true(name)),
{
}

/// Where a prefix of `items` holds something that is no text, so does the
/// whole.
pub proof fn lemma_texts_of_prefix(items: Seq<JsonView>, n: int)
    requires
        0 <= n <= items.len(),
        texts_of(items.take(n)) is None,
    ensures
        texts_of(items) is None,
    decreases items.len() - n,
{
    if n < items.len() {
        assert(items.take(n + 1).drop_last() =~= items.take(n));
        lemma_texts_of_prefix(items, n + 1);
    } else {
        assert(items.take(n) =~= items);
    }
}

} // verus!
