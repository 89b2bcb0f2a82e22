use vstd::prelude::*;

use crate::text::{chars_of, contains_chars, has_substring};
use crate::time::{utc_now, TimeDelta, Timestamp};
use crate::urgency::Urgency;

verus! {

/// An item in the to-do list.
#[derive(Clone, Debug)]
pub struct Item {
    /// The label of the item.
    pub text: String,
    /// Whether the item has been checked off or not.
    pub checked: bool,
    /// When the item is due, if ever.
    pub due_at: Option<Timestamp>,
    /// How urgent the item is.
    pub urgency: Urgency,
}

/// The value of an `Item`, with its label as a sequence of characters.
pub struct ItemView {
    pub text: Seq<char>,
    pub checked: bool,
    pub due_at: Option<Timestamp>,
    pub urgency: Urgency,
}

impl View for Item {
    type V = ItemView;

    open spec fn view(&self) -> ItemView {
        ItemView {
            text: self.text@,
            checked: self.checked,
            due_at: self.due_at,
            urgency: self.urgency,
        }
    }
}

/// The item that `add` appends: unchecked, with no due date, of normal urgency.
pub open spec fn fresh_item(text: Seq<char>) -> ItemView {
    ItemView { text, checked: false, due_at: None, urgency: Urgency::Normal }
}

/// An independent copy of `item`.
fn copy_item(item: &Item) -> (r: Item)
    ensures
        r@ == item@,
{
    Item {
        text: item.text.clone(),
        checked: item.checked,
        due_at: item.due_at,
        urgency: item.urgency,
    }
}

/// The one way an operation on the list can fail.
#[derive(Clone, Copy, Debug, PartialEq, Eq, Structural)]
pub enum TodoError {
    /// `index` addresses no item of a list that holds `len` items.
    IndexOutOfRange { index: usize, len: usize },
}

/// The criteria of a search, each absent one imposing nothing.
pub struct Criteria {
    pub text_substr: Option<Seq<char>>,
    pub checked: Option<bool>,
    pub due_in_less_than: Option<TimeDelta>,
    pub urgency_at_least: Option<Urgency>,
    pub urgency_at_most: Option<Urgency>,
}

/// The criteria that the arguments of `search` describe.
pub open spec fn criteria(
    text_substr: Option<String>,
    checked: Option<bool>,
    due_in_less_than: Option<TimeDelta>,
    urgency_at_least: Option<Urgency>,
    urgency_at_most: Option<Urgency>,
) -> Criteria {
    Criteria {
        text_substr: match text_substr {
            Some(s) => Some(s@),
            None => None,
        },
        checked,
        due_in_less_than,
        urgency_at_least,
        urgency_at_most,
    }
}

/// Whether `item` meets every criterion of `c` that is present, with `now`
/// as the time against which due dates are measured.
pub open spec fn meets_criteria(item: ItemView, c: Criteria, now: Timestamp) -> bool {
    &&& (c.text_substr is Some ==> has_substring(item.text, c.text_substr->0))
    &&& (c.checked is Some ==> item.checked == c.checked->0)
    &&& (c.due_in_less_than is Some ==> item.due_at is Some
        && item.due_at->0.spec_due_within(now, c.due_in_less_than->0))
    &&& (c.urgency_at_least is Some ==> item.urgency.spec_at_least(c.urgency_at_least->0))
    &&& (c.urgency_at_most is Some ==> c.urgency_at_most->0.spec_at_least(item.urgency))
}

/// The matching items among the first `n` of `items`, each with its index,
/// in index order.
pub open spec fn select(items: Seq<ItemView>, c: Criteria, now: Timestamp, n: nat) -> Seq<
    (int, ItemView),
>
    decreases n,
{
    if n == 0 {
        Seq::empty()
    } else {
        let before = select(items, c, now, (n - 1) as nat);
        let i = n - 1;
        if meets_criteria(items[i], c, now) {
            before.push((i, items[i]))
        } else {
            before
        }
    }
}

/// The result of searching `items` for `c` at time `now`.
pub open spec fn search_result(items: Seq<ItemView>, c: Criteria, now: Timestamp) -> Seq<
    (int, ItemView),
> {
    select(items, c, now, items.len())
}

/// The value of a returned sequence of indexed items.
pub open spec fn hits_view(r: Seq<(usize, Item)>) -> Seq<(int, ItemView)> {
    r.map_values(|p: (usize, Item)| (p.0 as int, p.1@))
}

/// The characters of an optional pattern.
pub open spec fn opt_chars(p: Option<Vec<char>>) -> Option<Seq<char>> {
    match p {
        Some(v) => Some(v@),
        None => None,
    }
}

/// Whether `item` meets every present criterion, the label's pattern given
/// as characters.
fn item_matches(
    item: &Item,
    pat: &Option<Vec<char>>,
    checked: Option<bool>,
    due_in_less_than: Option<TimeDelta>,
    urgency_at_least: Option<Urgency>,
    urgency_at_most: Option<Urgency>,
    now: &Timestamp,
) -> (r: bool)
    ensures
        r == meets_criteria(
            item@,
            (Criteria {
                text_substr: opt_chars(*pat),
                checked,
                due_in_less_than,
                urgency_at_least,
                urgency_at_most,
            }),
            *now,
        ),
{
    if let Some(c) = checked {
        if item.checked != c {
            return false;
        }
    }
    if let Some(least) = urgency_at_least {
        if !item.urgency.at_least(&least) {
            return false;
        }
    }
    if let Some(most) = urgency_at_most {
        if !most.at_least(&item.urgency) {
            return false;
        }
    }
    if let Some(limit) = due_in_less_than {
        match item.due_at {
            None => {
                return false;
            },
            Some(due) => {
                if !due.due_within(now, &limit) {
                    return false;
                }
            },
        }
    }
    match pat {
        None => true,
        Some(p) => {
            let text = chars_of(&item.text);
            contains_chars(&text, p)
        },
    }
}

/// The entire to-do list.
#[derive(Debug, Default)]
pub struct TodoList {
    /// The items in the to-do list.
    pub items: Vec<Item>,
}

impl View for TodoList {
    type V = Seq<ItemView>;

    open spec fn view(&self) -> Seq<ItemView> {
        self.items@.map_values(|i: Item| i@)
    }
}

impl TodoList {
    /// Returns a new, empty to-do list.
    pub fn new() -> (r: TodoList)
        ensures
            r@ == Seq::<ItemView>::empty(),
    {
        let r = TodoList { items: Vec::new() };
        assert(r@ =~= Seq::<ItemView>::empty());
        r
    }

    /// Appends a copy of `item`.
    pub fn add_full_item(&mut self, item: &Item)
        ensures
            final(self)@ == old(self)@.push(item@),
    {
        self.items.push(copy_item(item));
        assert(self@ =~= old(self)@.push(item@));
    }

    /// Appends an unchecked item labelled `item_text`, with no due date and
    /// normal urgency; its index is the former length.
    pub fn add(&mut self, item_text: String)
        ensures
            final(self)@ == old(self)@.push(fresh_item(item_text@)),
    {
        self.items.push(Item { text: item_text, checked: false, due_at: None, urgency: Urgency::Normal });
        assert(self@ =~= old(self)@.push(fresh_item(item_text@)));
    }

    /// Checks `index` against the length of the list.
    fn check_index(&self, index: usize) -> (r: Result<(), TodoError>)
        ensures
            index < self@.len() ==> r is Ok,
            index >= self@.len() ==> r == Err::<(), TodoError>(
                TodoError::IndexOutOfRange { index, len: self@.len() as usize },
            ),
    {
        if index < self.items.len() {
            Ok(())
        } else {
            Err(TodoError::IndexOutOfRange { index, len: self.items.len() })
        }
    }

    /// Returns a copy of the item at `index`.
    pub fn get(&self, index: usize) -> (r: Result<Item, TodoError>)
        ensures
            index < self@.len() ==> r is Ok && r->Ok_0@ == self@[index as int],
            index >= self@.len() ==> r == Err::<Item, TodoError>(
                TodoError::IndexOutOfRange { index, len: self@.len() as usize },
            ),
    {
        self.check_index(index)?;
        Ok(copy_item(&self.items[index]))
    }

    /// Sets whether the item at `index` is checked off.
    pub fn set_checked(&mut self, index: usize, checked: bool) -> (r: Result<(), TodoError>)
        ensures
            index < old(self)@.len() ==> r is Ok && final(self)@ == old(self)@.update(
                index as int,
                (ItemView { checked, ..old(self)@[index as int] }),
            ),
            index >= old(self)@.len() ==> r == Err::<(), TodoError>(
                TodoError::IndexOutOfRange { index, len: old(self)@.len() as usize },
            ) && final(self)@ == old(self)@,
    {
        self.check_index(index)?;
        self.items[index].checked = checked;
        assert(self@ =~= old(self)@.update(index as int, (ItemView { checked, ..old(self)@[index as int] })));
        Ok(())
    }

    /// Sets, or with `None` clears, the due date of the item at `index`.
    pub fn set_due_at(&mut self, index: usize, due_at: Option<Timestamp>) -> (r: Result<(), TodoError>)
        ensures
            index < old(self)@.len() ==> r is Ok && final(self)@ == old(self)@.update(
                index as int,
                (ItemView { due_at, ..old(self)@[index as int] }),
            ),
            index >= old(self)@.len() ==> r == Err::<(), TodoError>(
                TodoError::IndexOutOfRange { index, len: old(self)@.len() as usize },
            ) && final(self)@ == old(self)@,
    {
        self.check_index(index)?;
        self.items[index].due_at = due_at;
        assert(self@ =~= old(self)@.update(index as int, (ItemView { due_at, ..old(self)@[index as int] })));
        Ok(())
    }

    /// Replaces the label of the item at `index`.
    pub fn set_text(&mut self, index: usize, text: String) -> (r: Result<(), TodoError>)
        ensures
            index < old(self)@.len() ==> r is Ok && final(self)@ == old(self)@.update(
                index as int,
                (ItemView { text: text@, ..old(self)@[index as int] }),
            ),
            index >= old(self)@.len() ==> r == Err::<(), TodoError>(
                TodoError::IndexOutOfRange { index, len: old(self)@.len() as usize },
            ) && final(self)@ == old(self)@,
    {
        self.check_index(index)?;
        let ghost t = text@;
        self.items[index].text = text;
        assert(self@ =~= old(self)@.update(index as int, (ItemView { text: t, ..old(self)@[index as int] })));
        Ok(())
    }

    /// Sets the urgency of the item at `index`.
    pub fn set_urgent(&mut self, index: usize, urgency: Urgency) -> (r: Result<(), TodoError>)
        ensures
            index < old(self)@.len() ==> r is Ok && final(self)@ == old(self)@.update(
                index as int,
                (ItemView { urgency, ..old(self)@[index as int] }),
            ),
            index >= old(self)@.len() ==> r == Err::<(), TodoError>(
                TodoError::IndexOutOfRange { index, len: old(self)@.len() as usize },
            ) && final(self)@ == old(self)@,
    {
        self.check_index(index)?;
        self.items[index].urgency = urgency;
        assert(self@ =~= old(self)@.update(index as int, (ItemView { urgency, ..old(self)@[index as int] })));
        Ok(())
    }
    /// Returns the indices and copies of the items that meet every supplied
    /// criterion, in index order, with `now` as the time against which due
    /// dates are measured. An absent criterion imposes nothing:
    ///
    /// - `text_substr`: the label contains this substring (case-sensitive);
    /// - `checked`: the item is, or is not, checked off;
    /// - `due_in_less_than`: the item has a due date, at most this far after
    ///   `now` (an overdue item is due in less than any span that is not negative);
    /// - `urgency_at_least`, `urgency_at_most`: bounds on the urgency.
    pub fn search_at(
        &self,
        text_substr: Option<String>,
        checked: Option<bool>,
        due_in_less_than: Option<TimeDelta>,
        urgency_at_least: Option<Urgency>,
        urgency_at_most: Option<Urgency>,
        now: Timestamp,
    ) -> (r: Vec<(usize, Item)>)
        ensures
            hits_view(r@) == search_result(
                self@,
                criteria(text_substr, checked, due_in_less_than, urgency_at_least, urgency_at_most),
                now,
            ),
    {
        let ghost c = criteria(text_substr, checked, due_in_less_than, urgency_at_least, urgency_at_most);
        let pat: Option<Vec<char>> = match &text_substr {
            Some(s) => Some(chars_of(s)),
            None => None,
        };
        assert(c == (Criteria {
            text_substr: opt_chars(pat),
            checked,
            due_in_less_than,
            urgency_at_least,
            urgency_at_most,
        }));
        let mut hits: Vec<(usize, Item)> = Vec::new();
        let mut i: usize = 0;
        while i < self.items.len()
            invariant
                i <= self.items.len(),
                c == (Criteria {
                    text_substr: opt_chars(pat),
                    checked,
                    due_in_less_than,
                    urgency_at_least,
                    urgency_at_most,
                }),
                hits_view(hits@) == select(self@, c, now, i as nat),
            decreases self.items.len() - i,
        {
            let item = &self.items[i];
            assert(self@[i as int] == item@);
            if item_matches(item, &pat, checked, due_in_less_than, urgency_at_least, urgency_at_most, &now) {
                let ghost before = hits@;
                hits.push((i, copy_item(item)));
                assert(hits_view(hits@) =~= hits_view(before).push((i as int, self@[i as int])));
            }
            i += 1;
        }
        hits
    }

    /// Returns the indices and copies of the items that meet every supplied
    /// criterion, in index order, measuring due dates against the current
    /// time; see `search_at` for the criteria. Whatever the clock reads, the
    /// result is that of `search_at` at some instant, and without a due-date
    /// criterion it is that of `search_at` at every instant.
    pub fn search(
        &self,
        text_substr: Option<String>,
        checked: Option<bool>,
        due_in_less_than: Option<TimeDelta>,
        urgency_at_least: Option<Urgency>,
        urgency_at_most: Option<Urgency>,
    ) -> (r: Vec<(usize, Item)>)
        ensures
            exists|now: Timestamp|
                hits_view(r@) == #[trigger] search_result(
                    self@,
                    criteria(text_substr, checked, due_in_less_than, urgency_at_least, urgency_at_most),
                    now,
                ),
            due_in_less_than is None ==> forall|now: Timestamp|
                hits_view(r@) == #[trigger] search_result(
                    self@,
                    criteria(text_substr, checked, due_in_less_than, urgency_at_least, urgency_at_most),
                    now,
                ),
    {
        let now = utc_now();
        let r = self.search_at(text_substr, checked, due_in_less_than, urgency_at_least, urgency_at_most, now);
        proof {
            let c = criteria(text_substr, checked, due_in_less_than, urgency_at_least, urgency_at_most);
            if due_in_less_than is None {
                assert forall|t: Timestamp| hits_view(r@) == #[trigger] search_result(self@, c, t) by {
                    lemma_result_ignores_clock(self@, c, now, t, self@.len());
                }
            }
        }
        r
    }
}

/// Without a due-date criterion, the time at which a search is made does not
/// change its result.
proof fn lemma_result_ignores_clock(items: Seq<ItemView>, c: Criteria, t1: Timestamp, t2: Timestamp, n: nat)
    requires
        c.due_in_less_than is None,
    ensures
        select(items, c, t1, n) == select(items, c, t2, n),
    decreases n,
{
    if n > 0 {
        lemma_result_ignores_clock(items, c, t1, t2, (n - 1) as nat);
    }
}

} // verus!
