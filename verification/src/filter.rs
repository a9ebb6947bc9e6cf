//! Equality filters, and what they let through.
//!
//! Every query is scoped to one owner by a condition on the field `email`;
//! the lookup of a blog post adds a condition on the field `slug`. The store
//! applies the filter. What the filter means is stated here, over the
//! documents of a collection.

use crate::document::{field, views, Document, Fields, Json};
use vstd::prelude::*;

verus! {

/// An equality filter: every condition names a field and the text that the
/// field must hold.
#[derive(Clone, Debug, PartialEq, Eq)]
pub struct Filter {
    pub conditions: Vec<(String, String)>,
}

/// Mathematical model of [`Filter`]: its conditions in order.
pub type Conditions = Seq<(Seq<char>, Seq<char>)>;

impl View for Filter {
    type V = Conditions;

    open spec fn view(&self) -> Conditions {
        Seq::new(
            self.conditions@.len(),
            |i: int| (self.conditions@[i].0@, self.conditions@[i].1@),
        )
    }
}

/// The document meets every condition: each named field holds the wanted text.
pub open spec fn satisfies(doc: Fields, conditions: Conditions) -> bool {
    forall|i: int|
        0 <= i < conditions.len() ==> field(doc, (#[trigger] conditions[i]).0) == Some(
            Json::Text(conditions[i].1),
        )
}

/// [`satisfies`] as a function value.
pub open spec fn passes(conditions: Conditions) -> spec_fn(Fields) -> bool {
    |doc: Fields| satisfies(doc, conditions)
}

/// The documents of a collection that a filter lets through, in stored order.
pub open spec fn selected(stored: Seq<Fields>, conditions: Conditions) -> Seq<Fields> {
    stored.filter(passes(conditions))
}

/// Where no stored document meets the conditions, none is selected.
pub proof fn lemma_selected_none(stored: Seq<Fields>, conditions: Conditions)
    requires
        forall|j: int| 0 <= j < stored.len() ==> !satisfies(#[trigger] stored[j], conditions),
    ensures
        selected(stored, conditions) == Seq::<Fields>::empty(),
    decreases stored.len(),
{
    reveal(Seq::filter);
    if stored.len() > 0 {
        let rest = stored.drop_last();
        assert forall|j: int| 0 <= j < rest.len() implies !satisfies(
            #[trigger] rest[j],
            conditions,
        ) by {
            assert(rest[j] == stored[j]);
        }
        lemma_selected_none(rest, conditions);
        assert(!satisfies(stored[stored.len() - 1], conditions));
    }
}

/// Where exactly one stored document meets the conditions, it alone is selected.
pub proof fn lemma_selected_single(stored: Seq<Fields>, conditions: Conditions, at: int)
    requires
        0 <= at < stored.len(),
        satisfies(stored[at], conditions),
        forall|j: int|
            0 <= j < stored.len() && j != at ==> !satisfies(#[trigger] stored[j], conditions),
    ensures
        selected(stored, conditions) == seq![stored[at]],
    decreases stored.len(),
{
    reveal(Seq::filter);
    let rest = stored.drop_last();
    if at == stored.len() - 1 {
        assert forall|j: int| 0 <= j < rest.len() implies !satisfies(
            #[trigger] rest[j],
            conditions,
        ) by {
            assert(rest[j] == stored[j]);
        }
        lemma_selected_none(rest, conditions);
        assert(selected(stored, conditions) =~= seq![stored[at]]);
    } else {
        assert forall|j: int| 0 <= j < rest.len() && j != at implies !satisfies(
            #[trigger] rest[j],
            conditions,
        ) by {
            assert(rest[j] == stored[j]);
        }
        assert(rest[at] == stored[at]);
        lemma_selected_single(rest, conditions, at);
        assert(!satisfies(stored[stored.len() - 1], conditions));
    }
}

/// Every selected document meets the conditions and is a stored one.
pub proof fn lemma_selected_satisfy(stored: Seq<Fields>, conditions: Conditions, at: int)
    requires
        0 <= at < selected(stored, conditions).len(),
    ensures
        satisfies(selected(stored, conditions)[at], conditions),
        stored.contains(selected(stored, conditions)[at]),
{
    let hits = selected(stored, conditions);
    stored.lemma_filter_pred(passes(conditions), at);
    assert(hits.contains(hits[at]));
    stored.lemma_filter_contains_rev(passes(conditions), hits[at]);
}

/// The filter that every query carries: the owner's email.
pub open spec fn owner_conditions(owner_email: Seq<char>) -> Conditions {
    seq![("email"@, owner_email)]
}

/// The filter of a lookup by slug: the owner's email, and the slug.
pub open spec fn slug_conditions(owner_email: Seq<char>, slug: Seq<char>) -> Conditions {
    seq![("email"@, owner_email), ("slug"@, slug)]
}

impl Filter {
    /// The filter that lets through the documents of one owner.
    pub fn owner(owner_email: &str) -> (filter: Filter)
        ensures
            filter@ == owner_conditions(owner_email@),
    {
        let mut conditions: Vec<(String, String)> = Vec::new();
        conditions.push(("email".to_owned(), owner_email.to_owned()));
        let filter = Filter { conditions };
        assert(filter@ =~= owner_conditions(owner_email@));
        filter
    }

    /// This filter with one more condition.
    pub fn and(self, key: &str, wanted: &str) -> (filter: Filter)
        ensures
            filter@ == self@.push((key@, wanted@)),
    {
        let mut conditions = self.conditions;
        conditions.push((key.to_owned(), wanted.to_owned()));
        let filter = Filter { conditions };
        assert(filter@ =~= self@.push((key@, wanted@)));
        filter
    }

    /// Whether the filter lets a document through.
    pub fn matches(&self, doc: &Document) -> (b: bool)
        ensures
            b == satisfies(doc@, self@),
    {
        let mut i: usize = 0;
        while i < self.conditions.len()
            invariant
                i <= self.conditions.len(),
                forall|j: int|
                    0 <= j < i ==> field(doc@, (#[trigger] self@[j]).0) == Some(
                        Json::Text(self@[j].1),
                    ),
            decreases self.conditions.len() - i,
        {
            let met = match doc.get(self.conditions[i].0.as_str()) {
                Some(value) => match value.as_text() {
                    Some(held) => *held == self.conditions[i].1,
                    None => false,
                },
                None => false,
            };
            if !met {
                assert(field(doc@, self@[i as int].0) != Some(Json::Text(self@[i as int].1)));
                return false;
            }
            i += 1;
        }
        true
    }

    /// The documents that the filter lets through, in their order: what a
    /// store that holds `stored` answers to a find through this filter.
    pub fn select(&self, stored: Vec<Document>) -> (hits: Vec<Document>)
        ensures
            views(hits@) == selected(views(stored@), self@),
    {
        let ghost docs = stored@;
        let ghost all = views(docs);
        let mut hits: Vec<Document> = Vec::new();
        proof {
            reveal(Seq::filter);
            assert(all.take(0) =~= Seq::<Fields>::empty());
            assert(views(hits@) =~= selected(all.take(0), self@));
        }
        for doc in it: stored
            invariant
                it.seq() == docs,
                all == views(docs),
                views(hits@) == selected(all.take(it.index() as int), self@),
        {
            let ghost before = views(hits@);
            let ghost at = it.index() as int;
            proof {
                reveal(Seq::filter);
                assert(all.take(at + 1).drop_last() =~= all.take(at));
                assert(all.take(at + 1).last() == doc@);
            }
            if self.matches(&doc) {
                hits.push(doc);
                assert(views(hits@) =~= before.push(doc@));
            }
        }
        assert(all.take(docs.len() as int) =~= all);
        hits
    }
}

/// A stored document that does not meet the conditions can be taken away
/// without a change to what is selected.
pub proof fn lemma_selected_without(stored: Seq<Fields>, conditions: Conditions, at: int)
    requires
        0 <= at < stored.len(),
        !satisfies(stored[at], conditions),
    ensures
        selected(stored, conditions) == selected(stored.remove(at), conditions),
    decreases stored.len(),
{
    reveal(Seq::filter);
    let without = stored.remove(at);
    if at == stored.len() - 1 {
        assert(without =~= stored.drop_last());
    } else {
        lemma_selected_without(stored.drop_last(), conditions, at);
        assert(without.drop_last() =~= stored.drop_last().remove(at));
        assert(without.last() == stored.last());
    }
}

} // verus!
