//! A list with a cursor, two traversal orders (as given, or shuffled) and a
//! filtered view that is recomputed only when the search query changes.

use rand::seq::SliceRandom;
use vstd::prelude::*;
use vstd::string::*;
use crate::models::Drawable;
use crate::text::{
    ascii_lower, ascii_lower_chars, chars_of, contains_chars, is_substring,
};

verus! {

/// The text that `str::to_lowercase` of the standard library returns for a
/// text: its lower-case form by the Unicode tables, which depends on the text
/// alone.
pub uninterp spec fn unicode_lowercase(s: Seq<char>) -> Seq<char>;

/// `str::to_lowercase` of the standard library.
#[verifier::external_body]
fn lowercase(s: &str) -> (r: String)
    ensures
        r@ == unicode_lowercase(s@),
{
    s.to_lowercase()
}

/// `SliceRandom::shuffle` of the rand crate, driven by the generator of the
/// current thread: swaps elements around in place. Nothing is known of the
/// outcome but that it holds the same elements as before, each as often.
#[verifier::external_body]
fn shuffle_in_place(v: &mut Vec<usize>)
    ensures
        final(v)@.to_multiset() == old(v)@.to_multiset(),
{
    let mut rng = rand::thread_rng();
    v.shuffle(&mut rng);
}

/// The mark appended to the title of a shuffled list.
pub open spec fn shuffle_mark() -> Seq<char> {
    seq![' ', '\u{2928}', ' ', ' ']
}

/// The positions `0, 1, .., n - 1` in that order.
pub open spec fn identity_order(n: nat) -> Seq<usize> {
    Seq::new(n, |i: int| i as usize)
}

/// Whether `order` holds each of `0, .., n - 1` exactly once.
pub open spec fn is_permutation(order: Seq<usize>, n: nat) -> bool {
    &&& order.len() == n
    &&& forall|i: int| 0 <= i < order.len() ==> order[i] < n
    &&& order.no_duplicates()
}

/// Whether an item is found by the (already lowered) query `q`: its text,
/// with ASCII capitals lowered, contains `q`.
pub open spec fn item_matches<T: Drawable>(item: T, q: Seq<char>) -> bool {
    is_substring(ascii_lower(item.text_view()), q)
}

/// A list widget as contracts see it.
#[verifier::ext_equal]
pub struct ListView<T> {
    pub title: Seq<char>,
    pub items: Seq<T>,
    /// Whether the shuffled order is active.
    pub shuffled: bool,
    /// The active traversal order: position to index in `items`.
    pub order: Seq<usize>,
    /// The cursor in the whole list, a position.
    pub cursor: Option<usize>,
    /// The lowered search query; `Some` while the list is filtered.
    pub query: Option<Seq<char>>,
    /// The positions found by the last search, ascending.
    pub found: Seq<usize>,
    /// The cursor in the filtered view, an index into `found`.
    pub found_cursor: Option<usize>,
}

impl<T: Drawable> ListView<T> {
    /// A fresh list: given order, no cursor, no filter.
    pub open spec fn initial(title: Seq<char>, items: Seq<T>) -> Self {
        ListView {
            title,
            items,
            shuffled: false,
            order: identity_order(items.len()),
            cursor: None,
            query: None,
            found: Seq::empty(),
            found_cursor: None,
        }
    }

    pub open spec fn wf(self) -> bool {
        &&& is_permutation(self.order, self.items.len())
        &&& !self.shuffled ==> self.order == identity_order(self.items.len())
        &&& self.cursor matches Some(c) ==> c < self.items.len()
        &&& forall|k: int| 0 <= k < self.found.len() ==> self.found[k] < self.items.len()
        &&& self.found_cursor matches Some(c) ==> c < self.found.len()
    }

    pub open spec fn is_filtered(self) -> bool {
        self.query is Some
    }

    /// Length of the view that the cursor moves in.
    pub open spec fn active_len(self) -> nat {
        if self.is_filtered() {
            self.found.len()
        } else {
            self.items.len()
        }
    }

    /// The cursor of the view that is shown.
    pub open spec fn active_cursor(self) -> Option<usize> {
        if self.is_filtered() {
            self.found_cursor
        } else {
            self.cursor
        }
    }

    /// The list with the cursor of the shown view put on `c`.
    pub open spec fn with_active_cursor(self, c: usize) -> Self {
        if self.is_filtered() {
            ListView { found_cursor: Some(c), ..self }
        } else {
            ListView { cursor: Some(c), ..self }
        }
    }

    /// The selected position in the active order, if any: with a filter, the
    /// position that the filtered cursor stands for.
    pub open spec fn selected(self) -> Option<usize> {
        if self.is_filtered() {
            match self.found_cursor {
                Some(c) => Some(self.found[c as int]),
                None => None,
            }
        } else {
            self.cursor
        }
    }

    /// Cursor one down, wrapping to the top; onto the first entry when there
    /// was no cursor. An empty view stays as it is.
    pub open spec fn next(self) -> Self {
        if self.active_len() > 0 {
            self.with_active_cursor(
                match self.active_cursor() {
                    Some(i) => ((i + 1) % (self.active_len() as int)) as usize,
                    None => 0,
                },
            )
        } else {
            self
        }
    }

    /// Cursor one up, wrapping to the bottom; onto the first entry when there
    /// was no cursor. An empty view stays as it is.
    pub open spec fn previous(self) -> Self {
        if self.active_len() > 0 {
            self.with_active_cursor(
                match self.active_cursor() {
                    Some(i) => if i == 0 {
                        (self.active_len() - 1) as usize
                    } else {
                        (i - 1) as usize
                    },
                    None => 0,
                },
            )
        } else {
            self
        }
    }

    /// Cursor onto entry `ind` of the shown view; out of range changes nothing.
    pub open spec fn select_ind(self, ind: usize) -> Self {
        if ind < self.active_len() {
            self.with_active_cursor(ind)
        } else {
            self
        }
    }

    /// Whether the item at position `p` of the active order is found by `q`.
    pub open spec fn position_matches(self, q: Seq<char>) -> spec_fn(usize) -> bool {
        |p: usize| item_matches(self.items[self.order[p as int] as int], q)
    }

    /// The positions of the active order whose item is found by `q`,
    /// ascending.
    pub open spec fn matching_positions(self, q: Seq<char>) -> Seq<usize> {
        identity_order(self.order.len()).filter(self.position_matches(q))
    }

    /// The list filtered by the lowered query `q`. Asking again for the query
    /// that is active changes nothing; anything else searches anew and drops
    /// the filtered cursor.
    pub open spec fn filter(self, q: Seq<char>) -> Self {
        if self.query == Some(q) {
            self
        } else {
            ListView {
                query: Some(q),
                found: self.matching_positions(q),
                found_cursor: None,
                ..self
            }
        }
    }

    pub open spec fn clear_filter(self) -> Self {
        ListView { query: None, ..self }
    }

    /// The list switched to the shuffled order `order`.
    pub open spec fn shuffle_on(self, order: Seq<usize>) -> Self {
        ListView {
            order,
            cursor: None,
            shuffled: true,
            title: self.title + shuffle_mark(),
            ..self
        }
    }

    /// The list switched back to the order in which the items were given.
    pub open spec fn shuffle_off(self) -> Self {
        ListView {
            order: identity_order(self.items.len()),
            cursor: None,
            shuffled: false,
            title: self.title.take(
                if self.title.len() >= 4 {
                    self.title.len() - 4
                } else {
                    0
                },
            ),
            ..self
        }
    }
}

/// A rearrangement of a permutation is a permutation.
pub proof fn lemma_rearranged_permutation(before: Seq<usize>, after: Seq<usize>, n: nat)
    requires
        is_permutation(before, n),
        after.to_multiset() == before.to_multiset(),
    ensures
        is_permutation(after, n),
{
    broadcast use vstd::seq_lib::to_multiset_len, vstd::seq_lib::to_multiset_contains;

    assert(after.len() == after.to_multiset().len());
    assert(before.len() == before.to_multiset().len());
    assert forall|i: int| 0 <= i < after.len() implies after[i] < n by {
        let x = after[i];
        assert(after.contains(x));
        assert(after.to_multiset().count(x) > 0);
        assert(before.to_multiset().count(x) > 0);
        assert(before.contains(x));
        let j = choose|j: int| 0 <= j < before.len() && before[j] == x;
        assert(before[j] < n);
    }
    before.lemma_multiset_has_no_duplicates();
    after.lemma_multiset_has_no_duplicates_conv();
}

/// Shuffling a list that is in the given order and then switching the
/// shuffle off again restores the order, the title and everything else but
/// the cursor, whichever shuffled order came in between.
pub proof fn lemma_shuffle_round_trip<T: Drawable>(v: ListView<T>, order: Seq<usize>)
    requires
        v.wf(),
        !v.shuffled,
    ensures
        v.shuffle_on(order).shuffle_off() == (ListView { cursor: None, ..v }),
        v.shuffle_on(order).shuffle_off().order == v.order,
        v.shuffle_on(order).shuffle_off().title == v.title,
{
    let on = v.shuffle_on(order);
    assert(on.title.len() == v.title.len() + 4);
    assert(on.title.take(on.title.len() - 4) =~= v.title);
    assert(on.shuffle_off() =~= (ListView { cursor: None, ..v }));
}

/// A list of items with a title, a cursor, an optional shuffled order and
/// an optional filter.
pub struct ListWidget<T: Drawable> {
    title: String,
    cursor: Option<usize>,
    items: Vec<T>,
    shuffled: bool,
    ordered_items: Vec<usize>,
    last_query: Option<String>,
    filtered_indexes: Vec<usize>,
    filter_cursor: Option<usize>,
}

impl<T: Drawable> ListWidget<T> {
    pub closed spec fn view(&self) -> ListView<T> {
        ListView {
            title: self.title@,
            items: self.items@,
            shuffled: self.shuffled,
            order: self.ordered_items@,
            cursor: self.cursor,
            query: match self.last_query {
                Some(q) => Some(q@),
                None => None,
            },
            found: self.filtered_indexes@,
            found_cursor: self.filter_cursor,
        }
    }

    pub open spec fn wf(&self) -> bool {
        self@.wf()
    }

    /// A list without items.
    pub fn empty(title: &str) -> (w: Self)
        ensures
            w.wf(),
            w@ == ListView::<T>::initial(title@, Seq::empty()),
    {
        let w = ListWidget {
            title: String::from_str(title),
            cursor: None,
            items: Vec::new(),
            shuffled: false,
            ordered_items: Vec::new(),
            last_query: None,
            filtered_indexes: Vec::new(),
            filter_cursor: None,
        };
        assert(w@ =~= ListView::<T>::initial(title@, Seq::empty()));
        w
    }

    /// A list of `items`, in the order given.
    pub fn with_items(title: &str, items: Vec<T>) -> (w: Self)
        ensures
            w.wf(),
            w@ == ListView::<T>::initial(title@, items@),
    {
        let mut order: Vec<usize> = Vec::new();
        let mut i: usize = 0;
        while i < items.len()
            invariant
                i <= items.len(),
                order@ == identity_order(i as nat),
            decreases items.len() - i,
        {
            order.push(i);
            assert(order@ =~= identity_order((i + 1) as nat));
            i += 1;
        }
        let w = ListWidget {
            title: String::from_str(title),
            cursor: None,
            items,
            shuffled: false,
            ordered_items: order,
            last_query: None,
            filtered_indexes: Vec::new(),
            filter_cursor: None,
        };
        assert(w@ =~= ListView::<T>::initial(title@, items@));
        w
    }

    /// The selected position in the active order, if any.
    pub fn get_selected(&self) -> (r: Option<usize>)
        requires
            self.wf(),
        ensures
            r == self@.selected(),
    {
        if self.is_filtered() {
            match self.filter_cursor {
                Some(c) => Some(self.filtered_indexes[c]),
                None => None,
            }
        } else {
            self.cursor
        }
    }

    /// Puts the cursor of the shown view on `c`.
    fn set_active_cursor(&mut self, c: usize)
        requires
            old(self).wf(),
            c < old(self)@.active_len(),
        ensures
            final(self).wf(),
            final(self)@ == old(self)@.with_active_cursor(c),
    {
        if self.last_query.is_some() {
            self.filter_cursor = Some(c);
        } else {
            self.cursor = Some(c);
        }
    }

    /// Length of the view that the cursor moves in.
    fn active_len(&self) -> (n: usize)
        ensures
            n == self@.active_len(),
    {
        if self.last_query.is_some() {
            self.filtered_indexes.len()
        } else {
            self.items.len()
        }
    }

    /// The cursor of the shown view.
    fn active_cursor(&self) -> (c: Option<usize>)
        ensures
            c == self@.active_cursor(),
    {
        if self.last_query.is_some() {
            self.filter_cursor
        } else {
            self.cursor
        }
    }

    /// Moves the cursor one entry down, wrapping at the end.
    pub fn next(&mut self)
        requires
            old(self).wf(),
        ensures
            final(self).wf(),
            final(self)@ == old(self)@.next(),
    {
        let len = self.active_len();
        if len > 0 {
            let next: usize = match self.active_cursor() {
                Some(i) => (i + 1) % len,
                None => 0,
            };
            self.set_active_cursor(next);
        }
    }

    /// Moves the cursor one entry up, wrapping at the start.
    pub fn previous(&mut self)
        requires
            old(self).wf(),
        ensures
            final(self).wf(),
            final(self)@ == old(self)@.previous(),
    {
        let len = self.active_len();
        if len > 0 {
            let i: usize = match self.active_cursor() {
                Some(i) => if i == 0 {
                    len - 1
                } else {
                    i - 1
                },
                None => 0,
            };
            self.set_active_cursor(i);
        }
    }

    /// Puts the cursor on entry `ind` of the shown view, if there is one.
    pub fn select_ind(&mut self, ind: usize)
        requires
            old(self).wf(),
        ensures
            final(self).wf(),
            final(self)@ == old(self)@.select_ind(ind),
    {
        if ind < self.active_len() {
            self.set_active_cursor(ind);
        }
    }

    /// Filters the list by `query`, lowered, see `filter_lowered`.
    pub fn filter(&mut self, query: &str)
        requires
            old(self).wf(),
        ensures
            final(self).wf(),
            final(self)@ == old(self)@.filter(unicode_lowercase(query@)),
    {
        let lowered = lowercase(query);
        self.filter_lowered(lowered);
    }

    /// Filters the list by a query that is in lower case already: the view
    /// then shows the positions whose item's text, ASCII capitals lowered,
    /// contains the query. Nothing is searched when the query is the one
    /// that is active.
    pub fn filter_lowered(&mut self, lowered: String)
        requires
            old(self).wf(),
        ensures
            final(self).wf(),
            final(self)@ == old(self)@.filter(lowered@),
    {
        let same = match &self.last_query {
            Some(q) => q.as_str().eq(lowered.as_str()),
            None => false,
        };
        if !same {
            let needle = chars_of(lowered.as_str());
            let ghost v = self@;
            let ghost pred = v.position_matches(lowered@);
            let ghost all = identity_order(v.order.len());
            let mut found: Vec<usize> = Vec::new();
            let mut p: usize = 0;
            while p < self.ordered_items.len()
                invariant
                    self@ == v,
                    v.wf(),
                    needle@ == lowered@,
                    pred == v.position_matches(lowered@),
                    all == identity_order(v.order.len()),
                    p <= self.ordered_items.len(),
                    found@ == all.take(p as int).filter(pred),
                    forall|k: int| 0 <= k < found.len() ==> found[k] < p,
                decreases self.ordered_items.len() - p,
            {
                let item = &self.items[self.ordered_items[p]];
                let text = ascii_lower_chars(item.get_text());
                let hit = contains_chars(&text, &needle);
                proof {
                    assert(all.take(p + 1) =~= all.take(p as int).push(p));
                    all.take(p as int).lemma_filter_push(p, pred);
                    assert(hit == pred(p));
                }
                if hit {
                    found.push(p);
                }
                p += 1;
            }
            proof {
                assert(all.take(p as int) =~= all);
            }
            self.filtered_indexes = found;
            self.filter_cursor = None;
            self.last_query = Some(lowered);
        }
    }

    /// Shows the whole list again. The last search is kept aside.
    pub fn clear_filter(&mut self)
        ensures
            final(self)@ == old(self)@.clear_filter(),
            old(self).wf() ==> final(self).wf(),
    {
        self.last_query = None;
    }

    pub fn is_filtered(&self) -> (r: bool)
        ensures
            r == self@.is_filtered(),
    {
        self.last_query.is_some()
    }

    /// The item at position `ind` of the active order.
    pub fn get_ind(&self, ind: usize) -> (item: &T)
        requires
            self.wf(),
            ind < self@.items.len(),
        ensures
            *item == self@.items[self@.order[ind as int] as int],
    {
        &self.items[self.ordered_items[ind]]
    }

    /// Number of items, filtered or not.
    pub fn total_len(&self) -> (n: usize)
        ensures
            n == self@.items.len(),
    {
        self.items.len()
    }

    /// Marks the list as shuffled: no cursor, and the mark behind the title.
    fn mark_shuffled(&mut self)
        ensures
            final(self).ordered_items == old(self).ordered_items,
            final(self)@ == old(self)@.shuffle_on(old(self)@.order),
    {
        self.cursor = None;
        self.shuffled = true;
        self.title.push(' ');
        self.title.push('\u{2928}');
        self.title.push(' ');
        self.title.push(' ');
        assert(self.title@ =~= old(self).title@ + shuffle_mark());
    }

    /// Switches to the shuffled order `order`.
    pub fn shuffle_with(&mut self, order: Vec<usize>)
        requires
            old(self).wf(),
            is_permutation(order@, old(self)@.items.len()),
        ensures
            final(self).wf(),
            final(self)@ == old(self)@.shuffle_on(order@),
    {
        self.ordered_items = order;
        self.mark_shuffled();
    }

    /// Switches back to the order in which the items were given, drops the
    /// cursor and takes the mark off the title.
    pub fn unshuffle(&mut self)
        requires
            old(self).wf(),
        ensures
            final(self).wf(),
            final(self)@ == old(self)@.shuffle_off(),
    {
        let n = self.items.len();
        let mut order: Vec<usize> = Vec::new();
        let mut i: usize = 0;
        while i < n
            invariant
                i <= n,
                order@ == identity_order(i as nat),
            decreases n - i,
        {
            order.push(i);
            assert(order@ =~= identity_order((i + 1) as nat));
            i += 1;
        }
        self.ordered_items = order;
        self.cursor = None;
        self.shuffled = false;
        let ghost before = self.title@;
        let mut k: usize = 0;
        while k < 4
            invariant
                k <= 4,
                self.title@ == before.take(
                    if before.len() >= k {
                        before.len() - k
                    } else {
                        0
                    },
                ),
                self.items == old(self).items,
                self.ordered_items@ == identity_order(n as nat),
                self.cursor is None,
                !self.shuffled,
                self.last_query == old(self).last_query,
                self.filtered_indexes == old(self).filtered_indexes,
                self.filter_cursor == old(self).filter_cursor,
            decreases 4 - k,
        {
            let ghost now = self.title@;
            self.title.pop();
            proof {
                if now.len() > 0 {
                    assert(now.drop_last() =~= before.take(before.len() - k - 1));
                }
            }
            k += 1;
        }
        assert(self@ =~= old(self)@.shuffle_off());
    }

    /// Switches between the given order and a freshly shuffled one. Turning
    /// the shuffle on draws a new random order each time; turning it off
    /// restores the given order.
    pub fn toggle_shuffle(&mut self)
        requires
            old(self).wf(),
        ensures
            final(self).wf(),
            old(self)@.shuffled ==> final(self)@ == old(self)@.shuffle_off(),
            !old(self)@.shuffled ==> {
                &&& is_permutation(final(self)@.order, old(self)@.items.len())
                &&& final(self)@ == old(self)@.shuffle_on(final(self)@.order)
            },
    {
        if self.shuffled {
            self.unshuffle();
        } else {
            let ghost before = self.ordered_items@;
            shuffle_in_place(&mut self.ordered_items);
            proof {
                lemma_rearranged_permutation(before, self.ordered_items@, self.items@.len());
            }
            self.mark_shuffled();
        }
    }

    pub fn is_shuffled(&self) -> (r: bool)
        ensures
            r == self@.shuffled,
    {
        self.shuffled
    }

    pub fn title(&self) -> (s: &str)
        ensures
            s@ == self@.title,
    {
        self.title.as_str()
    }

    /// The lowered query of the active filter.
    pub fn query(&self) -> (q: Option<&str>)
        ensures
            match q {
                Some(s) => self@.query == Some(s@),
                None => self@.query is None,
            },
    {
        match &self.last_query {
            Some(s) => Some(s.as_str()),
            None => None,
        }
    }

    /// The active traversal order: for each position the index of its item.
    pub fn order(&self) -> (o: &Vec<usize>)
        ensures
            o@ == self@.order,
    {
        &self.ordered_items
    }

    /// The positions found by the last search.
    pub fn found(&self) -> (f: &Vec<usize>)
        ensures
            f@ == self@.found,
    {
        &self.filtered_indexes
    }

    /// The cursor in the whole list.
    pub fn cursor(&self) -> (c: Option<usize>)
        ensures
            c == self@.cursor,
    {
        self.cursor
    }

    /// The cursor in the filtered view.
    pub fn found_cursor(&self) -> (c: Option<usize>)
        ensures
            c == self@.found_cursor,
    {
        self.filter_cursor
    }
}

} // verus!
