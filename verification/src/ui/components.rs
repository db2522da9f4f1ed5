//! The selectable, searchable list widget and the one-line input box.
//!
//! A `StatefulList` holds an ordered collection of records, a highlight
//! cursor over the currently filtered view, a free-text filter, and a set
//! of selected record ids.  All of its operations are total: navigation on
//! an empty filtered view is a no-op, and lookups return `None` rather
//! than fail.

use vstd::prelude::*;
use crate::clockify::AppMode;
use crate::text::seq_views;
use crate::ui::Key;
use crate::ui::search::{count_pos, hit, rank, rank_items, scores_of, lemma_rank_properties};

verus! {

/// The capabilities a list record offers: a stable identifier, a display
/// label, and a duplication that keeps both.
pub trait Id: Sized {
    /// The identifier, as a character sequence.
    spec fn sid(&self) -> Seq<char>;

    /// The display label, as a character sequence.
    spec fn slabel(&self) -> Seq<char>;

    /// The identifier of the record.
    fn id(&self) -> (r: String)
        ensures
            r@ == self.sid(),
    ;

    /// The display label of the record.
    fn label(&self) -> (r: String)
        ensures
            r@ == self.slabel(),
    ;

    /// A duplicate of the record with the same identifier and label.
    fn dup(&self) -> (r: Self)
        ensures
            r.sid() == self.sid(),
            r.slabel() == self.slabel(),
    ;
}

/// The first position at or after `from` where `ids` holds `id`.
pub open spec fn find_from(ids: Seq<Seq<char>>, id: Seq<char>, from: int) -> Option<int>
    decreases ids.len() - from,
{
    if from < 0 || from >= ids.len() {
        Option::None
    } else if ids[from] == id {
        Option::Some(from)
    } else {
        find_from(ids, id, from + 1)
    }
}

/// The first position where `ids` holds `id`.
pub open spec fn find_first(ids: Seq<Seq<char>>, id: Seq<char>) -> Option<int> {
    find_from(ids, id, 0)
}

/// What `find_from` returns: the first matching position at or after
/// `from`, or nothing when no position at or after `from` matches.
pub proof fn lemma_find_from(ids: Seq<Seq<char>>, id: Seq<char>, from: int)
    requires
        0 <= from <= ids.len(),
    ensures
        match find_from(ids, id, from) {
            Option::None => forall|j: int| from <= j < ids.len() ==> ids[j] != id,
            Option::Some(k) => from <= k < ids.len() && ids[k] == id && (forall|j: int|
                from <= j < k ==> ids[j] != id),
        },
    decreases ids.len() - from,
{
    if from < ids.len() && ids[from] != id {
        lemma_find_from(ids, id, from + 1);
    }
}

/// The indices of `ids` whose entry is in `sel`, in order.
pub open spec fn filter_indices(ids: Seq<Seq<char>>, sel: Seq<Seq<char>>) -> Seq<int>
    decreases ids.len(),
{
    if ids.len() == 0 {
        Seq::empty()
    } else if sel.contains(ids.last()) {
        filter_indices(ids.drop_last(), sel).push(ids.len() - 1)
    } else {
        filter_indices(ids.drop_last(), sel)
    }
}

/// A selection toggled with `id`: a present id is removed at its first
/// occurrence; an absent one is appended, after clearing the selection
/// when the list is single-select and something was selected.
pub open spec fn toggle_sel(sel: Seq<Seq<char>>, id: Seq<char>, multi: bool) -> Seq<Seq<char>> {
    match find_first(sel, id) {
        Option::Some(k) => sel.remove(k),
        Option::None => if !multi && sel.len() > 0 {
            seq![id]
        } else {
            sel.push(id)
        },
    }
}

/// An ordered collection of records with a highlight cursor, a free-text
/// filter, and a selection set of record ids.
#[derive(Debug, Clone)]
pub struct StatefulList<T: Id> {
    /// The free-text filter; when non-empty, navigation and highlighting
    /// work on the view filtered and ranked by it.
    pub search_text: String,
    /// The ids of the selected records.
    pub selected: Vec<String>,
    /// Whether more than one record may be selected at a time.
    pub multiselect: bool,
    /// The heading a renderer shows above the list.
    pub title: String,
    /// The highlight cursor into the filtered view.
    pub highlighted: Option<usize>,
    /// The records.
    pub items: Vec<T>,
}

impl<T: Id> StatefulList<T> {
    /// The identifiers of the records, in order.
    pub open spec fn sids(self) -> Seq<Seq<char>> {
        self.items@.map_values(|t: T| t.sid())
    }

    /// The labels of the records, in order.
    pub open spec fn slabels(self) -> Seq<Seq<char>> {
        self.items@.map_values(|t: T| t.slabel())
    }

    /// The views of the selected ids.
    pub open spec fn sel(self) -> Seq<Seq<char>> {
        seq_views(self.selected@)
    }

    /// The scores of the records under query `q`.
    pub open spec fn scores(self, q: Seq<char>) -> Seq<nat> {
        scores_of(q, self.slabels())
    }

    /// The indices of the filtered view under query `q`: every index in
    /// the original order when the query is empty, the ranked matching
    /// indices otherwise.
    pub open spec fn view_indices(self, q: Seq<char>) -> Seq<int> {
        if q.len() == 0 {
            Seq::new(self.items@.len(), |i: int| i)
        } else {
            rank(self.scores(q))
        }
    }

    /// The indices of the currently filtered view.
    pub open spec fn filtered(self) -> Seq<int> {
        self.view_indices(self.search_text@)
    }

    /// The length of the currently filtered view.
    pub open spec fn filtered_len(self) -> nat {
        if self.search_text@.len() == 0 {
            self.items@.len()
        } else {
            count_pos(self.scores(self.search_text@), self.items@.len() as int)
        }
    }

    /// The identifier of the highlighted record, if the cursor stands on
    /// the filtered view.
    pub open spec fn highlighted_sid(self) -> Option<Seq<char>> {
        match self.highlighted {
            Option::Some(x) => if x < self.filtered().len() {
                Option::Some(self.items@[self.filtered()[x as int]].sid())
            } else {
                Option::None
            },
            Option::None => Option::None,
        }
    }

    /// An empty-selection list over `items` with an empty filter and no
    /// highlight.
    pub fn with_items(items: Vec<T>, title: String, multiselect: bool) -> (r: StatefulList<T>)
        ensures
            r.items == items,
            r.title == title,
            r.multiselect == multiselect,
            r.selected@.len() == 0,
            r.search_text@.len() == 0,
            r.highlighted is None,
    {
        StatefulList {
            search_text: String::new(),
            selected: Vec::new(),
            multiselect,
            title,
            highlighted: None,
            items,
        }
    }

    /// Replaces the records wholesale.  The selection set, the filter and
    /// the title are kept; the highlight cursor is reset.
    pub fn set_items(&mut self, items: Vec<T>)
        ensures
            final(self).items == items,
            final(self).selected == old(self).selected,
            final(self).search_text == old(self).search_text,
            final(self).title == old(self).title,
            final(self).multiselect == old(self).multiselect,
            final(self).highlighted is None,
    {
        self.items = items;
        self.highlighted = None;
    }

    /// Whether the backing records must be fetched: they are absent, or a
    /// refresh is forced.
    pub fn needs_refresh(&self, force: bool) -> (r: bool)
        ensures
            r == (self.items@.len() == 0 || force),
    {
        self.items.len() == 0 || force
    }

    /// Empties the selection set.
    pub fn clear_selected(&mut self)
        ensures
            final(self).selected@.len() == 0,
            final(self).items == old(self).items,
            final(self).search_text == old(self).search_text,
            final(self).title == old(self).title,
            final(self).multiselect == old(self).multiselect,
            final(self).highlighted == old(self).highlighted,
    {
        self.selected = Vec::new();
    }

    /// The labels of all records.
    fn label_vec(&self) -> (r: Vec<String>)
        ensures
            seq_views(r@) == self.slabels(),
    {
        let mut r: Vec<String> = Vec::new();
        let mut i: usize = 0;
        assert(seq_views(r@) =~= self.slabels().take(0));
        while i < self.items.len()
            invariant
                i <= self.items@.len(),
                seq_views(r@) == self.slabels().take(i as int),
            decreases self.items@.len() - i,
        {
            let l = self.items[i].label();
            proof {
                assert(seq_views(r@.push(l)) =~= seq_views(r@).push(l@));
                assert(self.slabels().take(i as int).push(self.slabels()[i as int])
                    =~= self.slabels().take(i as int + 1));
            }
            r.push(l);
            i = i + 1;
        }
        proof {
            assert(self.slabels().take(self.items@.len() as int) =~= self.slabels());
        }
        r
    }

    /// How many records the currently filtered view holds.
    pub fn filtered_count(&self) -> (n: usize)
        ensures
            n == self.filtered_len(),
    {
        if self.search_text.as_str().is_empty() {
            self.items.len()
        } else {
            let labels = self.label_vec();
            let rk = rank_items(&labels, self.search_text.as_str());
            proof {
                lemma_rank_properties(self.scores(self.search_text@));
            }
            rk.len()
        }
    }

    /// Moves the highlight to the next row of the filtered view, wrapping
    /// past the last row to the first; on an empty view nothing happens.
    pub fn next(&mut self)
        ensures
            final(self).items == old(self).items,
            final(self).selected == old(self).selected,
            final(self).search_text == old(self).search_text,
            final(self).title == old(self).title,
            final(self).multiselect == old(self).multiselect,
            old(self).filtered_len() == 0 ==> final(self).highlighted == old(self).highlighted,
            old(self).filtered_len() > 0 ==> final(self).highlighted == Some(
                match old(self).highlighted {
                    Option::Some(i) => if i + 1 >= old(self).filtered_len() {
                        0usize
                    } else {
                        (i + 1) as usize
                    },
                    Option::None => 0usize,
                },
            ),
    {
        let len = self.filtered_count();
        if len == 0 {
            return ;
        }
        let i: usize = match self.highlighted {
            Some(i) => {
                if i >= len - 1 {
                    0
                } else {
                    i + 1
                }
            },
            None => 0,
        };
        self.highlighted = Some(i);
    }

    /// Moves the highlight to the previous row of the filtered view,
    /// wrapping past the first row to the last; on an empty view nothing
    /// happens.
    pub fn previous(&mut self)
        ensures
            final(self).items == old(self).items,
            final(self).selected == old(self).selected,
            final(self).search_text == old(self).search_text,
            final(self).title == old(self).title,
            final(self).multiselect == old(self).multiselect,
            old(self).filtered_len() == 0 ==> final(self).highlighted == old(self).highlighted,
            old(self).filtered_len() > 0 ==> final(self).highlighted == Some(
                match old(self).highlighted {
                    Option::Some(i) => if i == 0 {
                        (old(self).filtered_len() - 1) as usize
                    } else {
                        (i - 1) as usize
                    },
                    Option::None => 0usize,
                },
            ),
    {
        let len = self.filtered_count();
        if len == 0 {
            return ;
        }
        let i: usize = match self.highlighted {
            Some(i) => {
                if i == 0 {
                    len - 1
                } else {
                    i - 1
                }
            },
            None => 0,
        };
        self.highlighted = Some(i);
    }

    /// The records matching `query`, by descending number of pattern
    /// matches; records with equally many matches keep their original
    /// relative order, and every returned record matches at least one
    /// query token.
    pub fn search(&self, query: &str) -> (r: Vec<T>)
        ensures
            r@.len() == rank(self.scores(query@)).len(),
            forall|j: int|
                0 <= j < r@.len() ==> (#[trigger] r@[j]).sid() == self.items@[rank(
                    self.scores(query@),
                )[j]].sid() && r@[j].slabel() == self.items@[rank(self.scores(query@))[j]].slabel(),
            forall|j: int| 0 <= j < r@.len() ==> hit(query@, (#[trigger] r@[j]).slabel()),
    {
        let labels = self.label_vec();
        let rk = rank_items(&labels, query);
        let ghost rkk = rank(self.scores(query@));
        proof {
            lemma_rank_properties(self.scores(query@));
        }
        let mut r: Vec<T> = Vec::new();
        let mut j: usize = 0;
        while j < rk.len()
            invariant
                j <= rk@.len(),
                rk@.map_values(|u: usize| u as int) == rkk,
                rkk == rank(self.scores(query@)),
                self.scores(query@).len() == self.items@.len(),
                forall|a: int| 0 <= a < rkk.len() ==> 0 <= #[trigger] rkk[a] < self.items@.len(),
                forall|a: int|
                    0 <= a < rk@.len() ==> hit(query@, self.slabels()[#[trigger] rk@[a] as int]),
                r@.len() == j,
                forall|a: int|
                    0 <= a < j ==> (#[trigger] r@[a]).sid() == self.items@[rkk[a]].sid()
                        && r@[a].slabel() == self.items@[rkk[a]].slabel(),
                forall|a: int| 0 <= a < j ==> hit(query@, (#[trigger] r@[a]).slabel()),
            decreases rk@.len() - j,
        {
            let idx = rk[j];
            proof {
                assert(rk@.map_values(|u: usize| u as int)[j as int] == rkk[j as int]);
                assert(idx as int == rkk[j as int]);
                assert(self.slabels()[idx as int] == self.items@[idx as int].slabel());
            }
            let it = self.items[idx].dup();
            r.push(it);
            j = j + 1;
        }
        r
    }

    /// The first record whose identifier is `id`, by reference.
    fn find_by_id_ref(&self, id: &String) -> (r: Option<&T>)
        ensures
            match find_first(self.sids(), id@) {
                Option::None => r is None,
                Option::Some(k) => {
                    &&& r matches Some(it)
                    &&& *it == self.items@[k]
                    &&& it.sid() == id@
                },
            },
    {
        proof {
            lemma_find_from(self.sids(), id@, 0);
        }
        let mut j: usize = 0;
        while j < self.items.len()
            invariant
                j <= self.items@.len(),
                forall|a: int| 0 <= a < j ==> self.sids()[a] != id@,
            decreases self.items@.len() - j,
        {
            let it_id = self.items[j].id();
            if it_id.eq(id) {
                proof {
                    assert(self.sids()[j as int] == id@);
                    lemma_find_from(self.sids(), id@, 0);
                }
                return Some(&self.items[j]);
            }
            proof {
                assert(self.sids()[j as int] != id@);
            }
            j = j + 1;
        }
        None
    }

    /// The first record whose identifier is `id`.
    pub fn get_by_id(&self, id: String) -> (r: Option<&T>)
        ensures
            match find_first(self.sids(), id@) {
                Option::None => r is None,
                Option::Some(k) => {
                    &&& r matches Some(it)
                    &&& *it == self.items@[k]
                    &&& it.sid() == id@
                },
            },
    {
        self.find_by_id_ref(&id)
    }

    /// The first record whose label is `string`.
    pub fn get_by_string(&self, string: String) -> (r: Option<&T>)
        ensures
            match find_first(self.slabels(), string@) {
                Option::None => r is None,
                Option::Some(k) => {
                    &&& r matches Some(it)
                    &&& *it == self.items@[k]
                    &&& it.slabel() == string@
                },
            },
    {
        proof {
            lemma_find_from(self.slabels(), string@, 0);
        }
        let mut j: usize = 0;
        while j < self.items.len()
            invariant
                j <= self.items@.len(),
                forall|a: int| 0 <= a < j ==> self.slabels()[a] != string@,
            decreases self.items@.len() - j,
        {
            let it_label = self.items[j].label();
            if it_label.eq(&string) {
                proof {
                    assert(self.slabels()[j as int] == string@);
                    lemma_find_from(self.slabels(), string@, 0);
                }
                return Some(&self.items[j]);
            }
            proof {
                assert(self.slabels()[j as int] != string@);
            }
            j = j + 1;
        }
        None
    }

    /// The first record of the filtered view the cursor stands on — more
    /// exactly, the first record in the backing collection that carries
    /// the highlighted record's identifier.  `None` when nothing is
    /// highlighted or the cursor is beyond the filtered view.
    pub fn get_highlighted_item(&self) -> (r: Option<&T>)
        ensures
            match self.highlighted_sid() {
                Option::None => r is None,
                Option::Some(id) => {
                    &&& r matches Some(it)
                    &&& find_first(self.sids(), id) matches Some(k)
                    &&& *it == self.items@[k]
                    &&& it.sid() == id
                },
            },
    {
        let x = match self.highlighted {
            Some(x) => x,
            None => {
                return None;
            },
        };
        if self.search_text.as_str().is_empty() {
            if x < self.items.len() {
                let id = self.items[x].id();
                proof {
                    assert(self.filtered()[x as int] == x as int);
                    assert(self.highlighted_sid() == Some(id@));
                    lemma_find_from(self.sids(), id@, 0);
                    assert(self.sids()[x as int] == id@);
                }
                self.find_by_id_ref(&id)
            } else {
                None
            }
        } else {
            let labels = self.label_vec();
            let rk = rank_items(&labels, self.search_text.as_str());
            let ghost rkk = rank(self.scores(self.search_text@));
            proof {
                lemma_rank_properties(self.scores(self.search_text@));
            }
            if x < rk.len() {
                let idx = rk[x];
                proof {
                    assert(rk@.map_values(|u: usize| u as int)[x as int] == rkk[x as int]);
                    assert(idx as int == rkk[x as int]);
                    assert(self.filtered() == rkk);
                }
                let id = self.items[idx].id();
                proof {
                    assert(self.highlighted_sid() == Some(id@));
                    lemma_find_from(self.sids(), id@, 0);
                    assert(self.sids()[idx as int] == id@);
                }
                self.find_by_id_ref(&id)
            } else {
                None
            }
        }
    }

    /// Whether `id` is one of the selected ids.
    fn selected_contains(&self, id: &String) -> (r: bool)
        ensures
            r == self.sel().contains(id@),
    {
        let mut j: usize = 0;
        while j < self.selected.len()
            invariant
                j <= self.selected@.len(),
                forall|a: int| 0 <= a < j ==> self.sel()[a] != id@,
            decreases self.selected@.len() - j,
        {
            if self.selected[j].eq(id) {
                proof {
                    assert(self.sel()[j as int] == id@);
                }
                return true;
            }
            proof {
                assert(self.sel()[j as int] != id@);
            }
            j = j + 1;
        }
        proof {
            assert forall|a: int| 0 <= a < self.sel().len() implies self.sel()[a] != id@ by {}
        }
        false
    }

    /// The position of `id` in the selected ids.
    fn find_selected_pos(&self, id: &String) -> (r: Option<usize>)
        ensures
            match find_first(self.sel(), id@) {
                Option::None => r is None,
                Option::Some(k) => r == Some(k as usize),
            },
    {
        proof {
            lemma_find_from(self.sel(), id@, 0);
        }
        let mut j: usize = 0;
        while j < self.selected.len()
            invariant
                j <= self.selected@.len(),
                forall|a: int| 0 <= a < j ==> self.sel()[a] != id@,
            decreases self.selected@.len() - j,
        {
            if self.selected[j].eq(id) {
                proof {
                    assert(self.sel()[j as int] == id@);
                    lemma_find_from(self.sel(), id@, 0);
                }
                return Some(j);
            }
            proof {
                assert(self.sel()[j as int] != id@);
            }
            j = j + 1;
        }
        None
    }

    /// The first index whose record is selected.
    pub open spec fn first_selected(self) -> Option<int> {
        find_sel_from(self.sids(), self.sel(), 0)
    }

    /// The first selected record, in backing order.
    pub fn get_selected_item(&self) -> (r: Option<&T>)
        ensures
            match self.first_selected() {
                Option::None => r is None,
                Option::Some(k) => r matches Some(it) && *it == self.items@[k],
            },
    {
        proof {
            lemma_find_sel_from(self.sids(), self.sel(), 0);
        }
        let mut j: usize = 0;
        while j < self.items.len()
            invariant
                j <= self.items@.len(),
                forall|a: int| 0 <= a < j ==> !self.sel().contains(#[trigger] self.sids()[a]),
            decreases self.items@.len() - j,
        {
            let it_id = self.items[j].id();
            if self.selected_contains(&it_id) {
                proof {
                    assert(self.sel().contains(self.sids()[j as int]));
                    lemma_find_sel_from(self.sids(), self.sel(), 0);
                }
                return Some(&self.items[j]);
            }
            proof {
                assert(!self.sel().contains(self.sids()[j as int]));
            }
            j = j + 1;
        }
        None
    }

    /// All selected records, in backing order, by reference.
    pub fn get_selected_items(&self) -> (r: Vec<&T>)
        ensures
            r@.len() == filter_indices(self.sids(), self.sel()).len(),
            forall|j: int|
                0 <= j < r@.len() ==> *(#[trigger] r@[j]) == self.items@[filter_indices(
                    self.sids(),
                    self.sel(),
                )[j]],
    {
        let ghost ids = self.sids();
        let mut r: Vec<&T> = Vec::new();
        let mut i: usize = 0;
        assert(filter_indices(ids.take(0), self.sel()) =~= Seq::<int>::empty());
        while i < self.items.len()
            invariant
                i <= self.items@.len(),
                ids == self.sids(),
                r@.len() == filter_indices(ids.take(i as int), self.sel()).len(),
                forall|j: int|
                    0 <= j < r@.len() ==> *(#[trigger] r@[j]) == self.items@[filter_indices(
                        ids.take(i as int),
                        self.sel(),
                    )[j]],
                forall|j: int|
                    0 <= j < filter_indices(ids.take(i as int), self.sel()).len()
                        ==> 0 <= #[trigger] filter_indices(ids.take(i as int), self.sel())[j]
                        < i,
            decreases self.items@.len() - i,
        {
            let ghost pre = filter_indices(ids.take(i as int), self.sel());
            proof {
                assert(ids.take(i as int + 1).drop_last() =~= ids.take(i as int));
                assert(ids.take(i as int + 1).last() == ids[i as int]);
            }
            let it_id = self.items[i].id();
            if self.selected_contains(&it_id) {
                proof {
                    assert(filter_indices(ids.take(i as int + 1), self.sel()) == pre.push(
                        i as int,
                    ));
                }
                r.push(&self.items[i]);
            } else {
                proof {
                    assert(filter_indices(ids.take(i as int + 1), self.sel()) == pre);
                }
            }
            i = i + 1;
        }
        proof {
            assert(ids.take(self.items@.len() as int) =~= ids);
        }
        r
    }

    /// Toggles the highlighted record's id in the selection set: a
    /// selected id is removed; an unselected one is added, clearing the
    /// selection first on a single-select list.  Nothing happens when
    /// nothing is highlighted.  A single-select list never ends up with
    /// more than one selected id.
    pub fn toggle_highlighted(&mut self)
        ensures
            toggle_rel(*old(self), *final(self)),
    {
        let hid: Option<String> = match self.get_highlighted_item() {
            Some(t) => Some(t.id()),
            None => None,
        };
        let id = match hid {
            Some(id) => id,
            None => {
                return ;
            },
        };
        match self.find_selected_pos(&id) {
            Some(j) => {
                proof {
                    lemma_find_from(self.sel(), id@, 0);
                }
                self.selected.remove(j);
                proof {
                    assert(seq_views(self.selected@) =~= seq_views(old(self).selected@).remove(
                        j as int,
                    ));
                }
            },
            None => {
                if !self.multiselect && self.selected.len() > 0 {
                    self.selected = Vec::new();
                }
                self.selected.push(id);
                proof {
                    if !old(self).multiselect && old(self).sel().len() > 0 {
                        assert(seq_views(self.selected@) =~= seq![id@]);
                    } else {
                        assert(seq_views(self.selected@) =~= seq_views(old(self).selected@).push(
                            id@,
                        ));
                    }
                }
            },
        }
    }

    /// Appends one character to the filter text and resets the highlight
    /// cursor to the top of the filtered view.
    pub fn append_search_char(&mut self, c: char)
        ensures
            final(self).search_text@ == old(self).search_text@.push(c),
            final(self).highlighted == Some(0usize),
            final(self).items == old(self).items,
            final(self).selected == old(self).selected,
            final(self).title == old(self).title,
            final(self).multiselect == old(self).multiselect,
    {
        self.highlighted = Some(0);
        self.search_text.push(c);
    }

    /// Removes the last character of the filter text, when there is one,
    /// and resets the highlight cursor to the top of the filtered view.
    pub fn backspace_search(&mut self)
        ensures
            old(self).search_text@.len() == 0 ==> final(self).search_text@ == old(
                self,
            ).search_text@,
            old(self).search_text@.len() > 0 ==> final(self).search_text@ == old(
                self,
            ).search_text@.drop_last(),
            final(self).highlighted == Some(0usize),
            final(self).items == old(self).items,
            final(self).selected == old(self).selected,
            final(self).title == old(self).title,
            final(self).multiselect == old(self).multiselect,
    {
        self.highlighted = Some(0);
        self.search_text.pop();
    }

    /// Applies one key press under the given input mode.
    pub fn key_event(&mut self, key: Key, mode: &AppMode)
        ensures
            list_key_rel(*old(self), *final(self), key, *mode),
    {
        match mode {
            AppMode::Search => {
                match key {
                    Key::Char(c) => {
                        self.append_search_char(c);
                    },
                    Key::Backspace => {
                        self.backspace_search();
                    },
                    _ => {
                        self.highlighted = Some(0);
                    },
                }
            },
            AppMode::Navigation => {
                match key {
                    Key::Char(c) => {
                        if c == 'j' {
                            self.next();
                        } else if c == 'k' {
                            self.previous();
                        } else if c == 'c' {
                            self.clear_selected();
                        }
                    },
                    Key::Up => {
                        self.previous();
                    },
                    Key::Down => {
                        self.next();
                    },
                    Key::Enter => {
                        self.toggle_highlighted();
                        self.search_text = String::new();
                    },
                    _ => {},
                }
            },
            AppMode::Edit => {},
        }
    }
}

/// A one-line text input with a fixed prompt.
#[derive(Debug, Clone)]
pub struct InputBox {
    pub prompt: String,
    pub text: String,
}

/// How `InputBox::key_event` relates the box after the call to the box
/// before it: in edit mode, characters are appended and backspace removes
/// the last one; in navigation mode, `c` clears the text.
pub open spec fn input_key_rel(pre: InputBox, post: InputBox, key: Key, mode: AppMode) -> bool {
    &&& post.prompt == pre.prompt
    &&& match mode {
        AppMode::Edit => match key {
            Key::Char(c) => post.text@ == pre.text@.push(c),
            Key::Backspace => post.text@ == if pre.text@.len() == 0 {
                pre.text@
            } else {
                pre.text@.drop_last()
            },
            _ => post.text == pre.text,
        },
        AppMode::Navigation => match key {
            Key::Char(c) => if c == 'c' {
                post.text@ == Seq::<char>::empty()
            } else {
                post.text == pre.text
            },
            _ => post.text == pre.text,
        },
        AppMode::Search => post.text == pre.text,
    }
}

impl InputBox {
    /// An empty input under the given prompt.
    pub fn new(prompt: &str) -> (r: InputBox)
        ensures
            r.prompt@ == prompt@,
            r.text@ == Seq::<char>::empty(),
    {
        InputBox { prompt: prompt.to_owned(), text: String::new() }
    }

    /// Applies one key press under the given input mode.
    pub fn key_event(&mut self, key: Key, mode: &AppMode)
        ensures
            input_key_rel(*old(self), *final(self), key, *mode),
    {
        match mode {
            AppMode::Edit => {
                match key {
                    Key::Char(c) => {
                        self.text.push(c);
                    },
                    Key::Backspace => {
                        self.text.pop();
                    },
                    _ => {},
                }
            },
            AppMode::Navigation => {
                match key {
                    Key::Char(c) => {
                        if c == 'c' {
                            self.text = String::new();
                        }
                    },
                    _ => {},
                }
            },
            AppMode::Search => {},
        }
    }
}

/// The first index at or after `from` whose entry in `ids` is in `sel`.
pub open spec fn find_sel_from(ids: Seq<Seq<char>>, sel: Seq<Seq<char>>, from: int) -> Option<
    int,
>
    decreases ids.len() - from,
{
    if from < 0 || from >= ids.len() {
        Option::None
    } else if sel.contains(ids[from]) {
        Option::Some(from)
    } else {
        find_sel_from(ids, sel, from + 1)
    }
}

/// What `find_sel_from` returns: the first position at or after `from`
/// whose entry is selected, or nothing when none is.
pub proof fn lemma_find_sel_from(ids: Seq<Seq<char>>, sel: Seq<Seq<char>>, from: int)
    requires
        0 <= from <= ids.len(),
    ensures
        match find_sel_from(ids, sel, from) {
            Option::None => forall|j: int| from <= j < ids.len() ==> !sel.contains(
                #[trigger] ids[j],
            ),
            Option::Some(k) => from <= k < ids.len() && sel.contains(ids[k]) && (forall|j: int|
                from <= j < k ==> !sel.contains(#[trigger] ids[j])),
        },
    decreases ids.len() - from,
{
    if from < ids.len() && !sel.contains(ids[from]) {
        lemma_find_sel_from(ids, sel, from + 1);
    }
}

/// The two lists agree on everything but the selection.
pub open spec fn same_but_selected<T: Id>(pre: StatefulList<T>, post: StatefulList<T>) -> bool {
    &&& post.items == pre.items
    &&& post.search_text == pre.search_text
    &&& post.title == pre.title
    &&& post.multiselect == pre.multiselect
    &&& post.highlighted == pre.highlighted
}

/// How `toggle_highlighted` relates the list after the call to the list
/// before it: only the selection changes, and it changes by toggling the
/// highlighted record's id.
pub open spec fn toggle_rel<T: Id>(pre: StatefulList<T>, post: StatefulList<T>) -> bool {
    &&& post.items == pre.items
    &&& post.search_text == pre.search_text
    &&& post.title == pre.title
    &&& post.multiselect == pre.multiselect
    &&& post.highlighted == pre.highlighted
    &&& match pre.highlighted_sid() {
        Option::None => post.selected == pre.selected,
        Option::Some(id) => post.sel() == toggle_sel(pre.sel(), id, pre.multiselect),
    }
    &&& (!pre.multiselect && pre.sel().len() <= 1 ==> post.sel().len() <= 1)
}

/// How `key_event` relates the list after the call to the list before it,
/// for each input mode and key.
pub open spec fn list_key_rel<T: Id>(
    pre: StatefulList<T>,
    post: StatefulList<T>,
    key: Key,
    mode: AppMode,
) -> bool {
    match mode {
        AppMode::Search => {
            &&& post.items == pre.items
            &&& post.selected == pre.selected
            &&& post.title == pre.title
            &&& post.multiselect == pre.multiselect
            &&& post.highlighted == Some(0usize)
            &&& match key {
                Key::Char(c) => post.search_text@ == pre.search_text@.push(c),
                Key::Backspace => post.search_text@ == if pre.search_text@.len() == 0 {
                    pre.search_text@
                } else {
                    pre.search_text@.drop_last()
                },
                _ => post.search_text == pre.search_text,
            }
        },
        AppMode::Navigation => match key {
            Key::Char(c) => if c == 'j' {
                next_rel(pre, post)
            } else if c == 'k' {
                previous_rel(pre, post)
            } else if c == 'c' {
                {
                    &&& post.items == pre.items
                    &&& post.search_text == pre.search_text
                    &&& post.title == pre.title
                    &&& post.multiselect == pre.multiselect
                    &&& post.highlighted == pre.highlighted
                    &&& post.selected@.len() == 0
                }
            } else {
                post == pre
            },
            Key::Up => previous_rel(pre, post),
            Key::Down => next_rel(pre, post),
            Key::Enter => {
                &&& post.items == pre.items
                &&& post.title == pre.title
                &&& post.multiselect == pre.multiselect
                &&& post.highlighted == pre.highlighted
                &&& post.search_text@ == Seq::<char>::empty()
                &&& match pre.highlighted_sid() {
                    Option::None => post.selected == pre.selected,
                    Option::Some(id) => post.sel() == toggle_sel(
                        pre.sel(),
                        id,
                        pre.multiselect,
                    ),
                }
                &&& (!pre.multiselect && pre.sel().len() <= 1 ==> post.sel().len() <= 1)
            },
            _ => post == pre,
        },
        AppMode::Edit => post == pre,
    }
}

/// How `next` relates the list after the call to the list before it.
pub open spec fn next_rel<T: Id>(pre: StatefulList<T>, post: StatefulList<T>) -> bool {
    &&& post.items == pre.items
    &&& post.selected == pre.selected
    &&& post.search_text == pre.search_text
    &&& post.title == pre.title
    &&& post.multiselect == pre.multiselect
    &&& (pre.filtered_len() == 0 ==> post.highlighted == pre.highlighted)
    &&& (pre.filtered_len() > 0 ==> post.highlighted == Some(
        match pre.highlighted {
            Option::Some(i) => if i + 1 >= pre.filtered_len() {
                0usize
            } else {
                (i + 1) as usize
            },
            Option::None => 0usize,
        },
    ))
}

/// How `previous` relates the list after the call to the list before it.
pub open spec fn previous_rel<T: Id>(pre: StatefulList<T>, post: StatefulList<T>) -> bool {
    &&& post.items == pre.items
    &&& post.selected == pre.selected
    &&& post.search_text == pre.search_text
    &&& post.title == pre.title
    &&& post.multiselect == pre.multiselect
    &&& (pre.filtered_len() == 0 ==> post.highlighted == pre.highlighted)
    &&& (pre.filtered_len() > 0 ==> post.highlighted == Some(
        match pre.highlighted {
            Option::Some(i) => if i == 0 {
                (pre.filtered_len() - 1) as usize
            } else {
                (i - 1) as usize
            },
            Option::None => 0usize,
        },
    ))
}

/// Looking up each id right after it was put in place finds exactly the
/// record that carries it, provided the ids are pairwise distinct.  With
/// a duplicated id, the lookup of the later record finds the earlier one.
pub proof fn lemma_set_items_round_trip(ids: Seq<Seq<char>>)
    requires
        forall|a: int, b: int| 0 <= a < b < ids.len() ==> ids[a] != ids[b],
    ensures
        forall|i: int|
            0 <= i < ids.len() ==> find_first(ids, #[trigger] ids[i]) == Option::Some(i),
{
    assert forall|i: int| 0 <= i < ids.len() implies find_first(ids, #[trigger] ids[i])
        == Option::Some(i) by {
        lemma_find_from(ids, ids[i], 0);
        match find_first(ids, ids[i]) {
            Option::None => {
                assert(ids[i] == ids[i]);
            },
            Option::Some(k) => {
                if k < i {
                    assert(ids[k] != ids[i]);
                } else if k > i {
                    assert(ids[i] != ids[i]);
                }
            },
        }
    }
}

/// On a single-select list, toggling leaves at most one id selected,
/// whatever id stood under the cursor — provided the selection held at
/// most one id before, as every selection reached through the list's own
/// operations does.  A selection of two or more ids, written into the
/// field directly, can keep more than one.
pub proof fn lemma_toggle_single_select(sel: Seq<Seq<char>>, id: Seq<char>)
    requires
        sel.len() <= 1,
    ensures
        toggle_sel(sel, id, false).len() <= 1,
{
    lemma_find_from(sel, id, 0);
}

/// Toggling the same id twice on a multi-select list restores the
/// selection set: exactly for an id that was not selected, and as a
/// multiset for one that was — there the re-added id moves to the end of
/// the selection list.  The selected ids must be pairwise distinct, as
/// every selection built by toggling is.
pub proof fn lemma_toggle_twice_multiselect(sel: Seq<Seq<char>>, id: Seq<char>)
    requires
        forall|a: int, b: int| 0 <= a < b < sel.len() ==> sel[a] != sel[b],
    ensures
        !sel.contains(id) ==> toggle_sel(toggle_sel(sel, id, true), id, true) == sel,
        sel.contains(id) ==> toggle_sel(toggle_sel(sel, id, true), id, true).to_multiset()
            == sel.to_multiset(),
{
    broadcast use vstd::seq_lib::group_to_multiset_ensures;

    lemma_find_from(sel, id, 0);
    if !sel.contains(id) {
        match find_first(sel, id) {
            Option::Some(k) => {
                assert(sel.contains(id)) by {
                    assert(sel[k] == id);
                }
            },
            Option::None => {},
        }
        let mid = sel.push(id);
        assert(toggle_sel(sel, id, true) == mid);
        lemma_find_from(mid, id, 0);
        match find_first(mid, id) {
            Option::None => {
                assert(mid[sel.len() as int] == id);
            },
            Option::Some(k2) => {
                if k2 < sel.len() {
                    assert(sel.contains(id)) by {
                        assert(sel[k2] == id);
                    }
                }
                assert(k2 == sel.len());
                assert(toggle_sel(mid, id, true) == mid.remove(k2));
                assert(mid.remove(k2) =~= sel);
            },
        }
    } else {
        let k = find_first(sel, id).unwrap();
        assert(sel[k] == id);
        let mid = sel.remove(k);
        assert(toggle_sel(sel, id, true) == mid);
        assert forall|a: int| 0 <= a < mid.len() implies mid[a] != id by {
            sel.remove_ensures(k);
            if a < k {
                assert(mid[a] == sel[a]);
            } else {
                assert(mid[a] == sel[a + 1]);
            }
        }
        if mid.contains(id) {
            let w = choose|w: int| 0 <= w < mid.len() && mid[w] == id;
            assert(mid[w] != id);
        }
        lemma_find_from(mid, id, 0);
        match find_first(mid, id) {
            Option::Some(k2) => {
                assert(mid.contains(id)) by {
                    assert(mid[k2] == id);
                }
            },
            Option::None => {},
        }
        assert(toggle_sel(mid, id, true) == mid.push(id));
        assert(mid.push(id).to_multiset() =~= sel.to_multiset()) by {
            assert(mid.to_multiset() =~= sel.to_multiset().remove(id));
            assert(mid.push(id).to_multiset() =~= mid.to_multiset().insert(id));
            assert(sel.to_multiset().count(id) > 0) by {
                assert(sel.contains(id));
            }
            assert(sel.to_multiset().remove(id).insert(id) =~= sel.to_multiset()) by {
                broadcast use vstd::multiset::group_multiset_axioms;

            }
        }
    }
}

} // verus!
