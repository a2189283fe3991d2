//! The records of the five resources, and the requests that create and
//! update them.

use vstd::prelude::*;
use crate::error::{Error, ErrorView};
use crate::json::{Json, JsonView, unexpected_of};

pub mod alias;
pub mod forwarding;
pub mod identity;
pub mod mailbox;
pub mod rewrite;

verus! {

/// A record that the service sends as a JSON object.
pub trait Entity: Sized + DeepView {
    /// The record that a document holds. Where it holds none, the
    /// diagnostic: it names the first field, in the order of the record's
    /// fields, that is missing or of the wrong kind.
    spec fn decoded(j: JsonView) -> Result<Self::V, Seq<char>>;

    /// The name under which a list answer holds the records.
    spec fn envelope() -> Seq<char>;

    /// Reads the record out of a document.
    fn from_json(j: &Json) -> (r: Result<Self, Error>)
        ensures
            match r {
                Ok(record) => Self::decoded(j@) == Ok::<Self::V, Seq<char>>(record.deep_view()),
                Err(e) => Self::decoded(j@) matches Err(message) && e@ == ErrorView::Parse(message),
            },
    ;

    /// The name under which a list answer holds the records.
    fn envelope_key() -> (key: &'static str)
        ensures
            key@ == Self::envelope(),
    ;
}

/// The records that `items` hold, in their order. Where one of them holds
/// none, the diagnostic of the first that does not.
pub open spec fn decoded_all<T: Entity>(items: Seq<JsonView>) -> Result<Seq<T::V>, Seq<char>>
    decreases items.len(),
{
    if items.len() == 0 {
        Ok(Seq::empty())
    } else {
        match decoded_all::<T>(items.drop_last()) {
            Err(message) => Err(message),
            Ok(front) => match T::decoded(items.last()) {
                Err(message) => Err(message),
                Ok(record) => Ok(front.push(record)),
            },
        }
    }
}

/// The records of a list answer: the document must be an object whose
/// member `T::envelope()` is an array of records. They come in the order of
/// the array.
pub open spec fn listed<T: Entity>(j: JsonView) -> Result<Seq<T::V>, Seq<char>> {
    match j.items(T::envelope()) {
        Some(items) => decoded_all::<T>(items),
        None => Err(unexpected_of(T::envelope())),
    }
}

/// Where a prefix of `items` holds something that is no record, so does the
/// whole, with the same diagnostic.
pub proof fn lemma_decoded_all_prefix<T: Entity>(items: Seq<JsonView>, n: int)
    requires
        0 <= n <= items.len(),
        decoded_all::<T>(items.take(n)) is Err,
    ensures
        decoded_all::<T>(items) == decoded_all::<T>(items.take(n)),
    decreases items.len() - n,
{
    if n < items.len() {
        assert(items.take(n + 1).drop_last() =~= items.take(n));
        lemma_decoded_all_prefix::<T>(items, n + 1);
    } else {
        assert(items.take(n) =~= items);
    }
}

/// A list is read record by record: it has as many records as the array has
/// items, and each is what its item holds.
pub proof fn lemma_decoded_all_pointwise<T: Entity>(items: Seq<JsonView>)
    requires
        decoded_all::<T>(items) is Ok,
    ensures
        decoded_all::<T>(items)->Ok_0.len() == items.len(),
        forall|k: int|
            0 <= k < items.len() ==> T::decoded(#[trigger] items[k]) == Ok::<T::V, Seq<char>>(
                decoded_all::<T>(items)->Ok_0[k],
            ),
    decreases items.len(),
{
    if items.len() > 0 {
        let front = items.drop_last();
        lemma_decoded_all_pointwise::<T>(front);
        assert forall|k: int| 0 <= k < items.len() implies T::decoded(#[trigger] items[k]) == Ok::<
            T::V,
            Seq<char>,
        >(decoded_all::<T>(items)->Ok_0[k]) by {
            if k < front.len() {
                assert(items[k] == front[k]);
            }
        }
    }
}

/// A list answer gives the records of its envelope, one for one and in
/// order: as many records as the array under `T::envelope()` has items,
/// each of them what its item holds.
pub proof fn lemma_listed_follows_envelope<T: Entity>(j: JsonView)
    requires
        listed::<T>(j) is Ok,
    ensures
        j.member(T::envelope()) matches Some(JsonView::Array(items)) && listed::<T>(j)->Ok_0.len()
            == items.len() && forall|k: int|
            0 <= k < items.len() ==> T::decoded(#[trigger] items[k]) == Ok::<T::V, Seq<char>>(
                listed::<T>(j)->Ok_0[k],
            ),
{
    lemma_decoded_all_pointwise::<T>(j.items(T::envelope())->0);
}

/// A document without the envelope, or with something else than an array
/// under its name, is no list answer.
pub proof fn lemma_listed_needs_envelope<T: Entity>(j: JsonView)
    requires
        j.member(T::envelope()) is None || !(j.member(T::envelope())->0 is Array),
    ensures
        listed::<T>(j) == Err::<Seq<T::V>, Seq<char>>(unexpected_of(T::envelope())),
{
}

/// Reads every record of an array.
pub fn decode_all<T: Entity>(items: &Vec<Json>) -> (r: Result<Vec<T>, Error>)
    ensures
        match r {
            Ok(list) => decoded_all::<T>(items.deep_view()) == Ok::<Seq<T::V>, Seq<char>>(
                list.deep_view(),
            ),
            Err(e) => decoded_all::<T>(items.deep_view()) matches Err(message) && e@
                == ErrorView::Parse(message),
        },
{
    let ghost all = items.deep_view();
    let mut list: Vec<T> = Vec::new();
    let mut i: usize = 0;
    assert(all.take(0) =~= Seq::<JsonView>::empty());
    assert(list.deep_view() =~= Seq::<T::V>::empty());
    while i < items.len()
        invariant
            i <= items.len(),
            all == items.deep_view(),
            decoded_all::<T>(all.take(i as int)) == Ok::<Seq<T::V>, Seq<char>>(list.deep_view()),
        decreases items.len() - i,
    {
        proof {
            assert(all.take(i + 1).drop_last() =~= all.take(i as int));
            assert(all.take(i + 1).last() == items[i as int]@);
        }
        match T::from_json(&items[i]) {
            Ok(record) => {
                let ghost before = list.deep_view();
                list.push(record);
                assert(list.deep_view() =~= before.push(record.deep_view()));
            },
            Err(e) => {
                proof {
                    lemma_decoded_all_prefix::<T>(all, i + 1);
                }
                return Err(e);
            },
        }
        i = i + 1;
    }
    proof {
        assert(all.take(i as int) =~= all);
    }
    Ok(list)
}

/// Reads the records of a list answer.
pub fn decode_list<T: Entity>(j: &Json) -> (r: Result<Vec<T>, Error>)
    ensures
        match r {
            Ok(list) => listed::<T>(j@) == Ok::<Seq<T::V>, Seq<char>>(list.deep_view()),
            Err(e) => listed::<T>(j@) matches Err(message) && e@ == ErrorView::Parse(message),
        },
{
    let items = j.items(T::envelope_key())?;
    decode_all::<T>(items)
}

} // verus!
