use vstd::prelude::*;

use crate::time::{TimeDelta, Timestamp};
use crate::todo_list::{
    criteria, fresh_item, meets_criteria, search_result, select, Criteria, ItemView,
};
use crate::urgency::Urgency;

verus! {

/// After `add(text)`, the item at the new index has label `text`, is
/// unchecked, has no due date and normal urgency, and every earlier item is
/// as it was.
pub proof fn lemma_added_item_reads_back(items: Seq<ItemView>, text: Seq<char>)
    ensures
        ({
            let after = items.push(fresh_item(text));
            &&& after.len() == items.len() + 1
            &&& after[items.len() as int].text == text
            &&& !after[items.len() as int].checked
            &&& after[items.len() as int].due_at is None
            &&& after[items.len() as int].urgency == Urgency::Normal
            &&& forall|i: int| 0 <= i < items.len() ==> after[i] == items[i]
        }),
{
}

/// A search with no criterion returns every item with its index, in index order.
pub proof fn lemma_unconstrained_search_returns_all(items: Seq<ItemView>, now: Timestamp)
    ensures
        search_result(items, criteria(None, None, None, None, None), now) == Seq::new(
            items.len(),
            |i: int| (i, items[i]),
        ),
{
    let c = criteria(None, None, None, None, None);
    assert forall|n: nat| n <= items.len() implies #[trigger] select(items, c, now, n) == Seq::new(
        n,
        |i: int| (i, items[i]),
    ) by {
        lemma_select_all(items, c, now, n);
    }
    assert(select(items, c, now, items.len()) == Seq::new(items.len(), |i: int| (i, items[i])));
}

/// When every item meets the criteria, every item is selected, in order.
proof fn lemma_select_all(items: Seq<ItemView>, c: Criteria, now: Timestamp, n: nat)
    requires
        n <= items.len(),
        forall|i: int| 0 <= i < items.len() ==> meets_criteria(#[trigger] items[i], c, now),
    ensures
        select(items, c, now, n) == Seq::new(n, |i: int| (i, items[i])),
    decreases n,
{
    if n > 0 {
        lemma_select_all(items, c, now, (n - 1) as nat);
        assert(select(items, c, now, n) =~= Seq::new(n, |i: int| (i, items[i])));
    } else {
        assert(select(items, c, now, n) =~= Seq::new(n, |i: int| (i, items[i])));
    }
}

/// A search of an empty list returns nothing, whatever the criteria.
pub proof fn lemma_search_of_empty_list(c: Criteria, now: Timestamp)
    ensures
        search_result(Seq::empty(), c, now) == Seq::<(int, ItemView)>::empty(),
{
}

/// An item without a due date never meets a due-date criterion.
pub proof fn lemma_no_due_date_never_due(item: ItemView, c: Criteria, now: Timestamp)
    requires
        item.due_at is None,
        c.due_in_less_than is Some,
    ensures
        !meets_criteria(item, c, now),
{
}

/// An overdue item is due in less than any span that is not negative.
pub proof fn lemma_overdue_is_due_within(item: ItemView, limit: TimeDelta, now: Timestamp)
    requires
        item.due_at is Some,
        item.due_at->0.total_nanos() < now.total_nanos(),
        limit.total_nanos() >= 0,
    ensures
        item.due_at->0.spec_due_within(now, limit),
        meets_criteria(item, criteria(None, None, Some(limit), None, None), now),
{
}

/// Bounding the urgency below by `Low` and above by `High` constrains nothing:
/// the search returns what it returns without urgency bounds.
pub proof fn lemma_full_urgency_range_is_no_bound(items: Seq<ItemView>, c: Criteria, now: Timestamp)
    ensures
        search_result(
            items,
            (Criteria { urgency_at_least: Some(Urgency::Low), urgency_at_most: Some(Urgency::High), ..c }),
            now,
        ) == search_result(
            items,
            (Criteria { urgency_at_least: None, urgency_at_most: None, ..c }),
            now,
        ),
{
    let bounded = Criteria { urgency_at_least: Some(Urgency::Low), urgency_at_most: Some(Urgency::High), ..c };
    let unbounded = Criteria { urgency_at_least: None, urgency_at_most: None, ..c };
    assert forall|item: ItemView| meets_criteria(item, bounded, now) == meets_criteria(item, unbounded, now) by {
        assert(item.urgency.spec_at_least(Urgency::Low));
        assert(Urgency::High.spec_at_least(item.urgency));
    }
    lemma_select_same_matches(items, bounded, unbounded, now, items.len());
}

/// Criteria that every item meets alike select alike.
proof fn lemma_select_same_matches(items: Seq<ItemView>, c1: Criteria, c2: Criteria, now: Timestamp, n: nat)
    requires
        forall|item: ItemView| meets_criteria(item, c1, now) == #[trigger] meets_criteria(item, c2, now),
    ensures
        select(items, c1, now, n) == select(items, c2, now, n),
    decreases n,
{
    if n > 0 {
        lemma_select_same_matches(items, c1, c2, now, (n - 1) as nat);
        assert(meets_criteria(items[n - 1], c1, now) == meets_criteria(items[n - 1], c2, now));
    }
}

} // verus!
