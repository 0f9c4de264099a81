//! The counter store: an ordered sequence of named counters and an optional
//! selection cursor that always designates an existing counter.
use vstd::prelude::*;

verus! {

/// One named counter.
pub struct Counter {
    pub name: String,
    pub count: i64,
}

impl View for Counter {
    type V = (Seq<char>, int);

    open spec fn view(&self) -> (Seq<char>, int) {
        (self.name@, self.count as int)
    }
}

impl Counter {
    /// A counter called `name` that starts at zero.
    pub fn new(name: &str) -> (r: Counter)
        ensures
            r@ == (name@, 0int),
    {
        Counter { name: name.to_owned(), count: 0 }
    }
}

/// What a counter list holds: each counter's name and count, in display order,
/// and the selected position, if any.
pub struct ListModel {
    pub counters: Seq<(Seq<char>, int)>,
    pub selected: Option<int>,
}

/// The model after `delta` was added to the counter at `index`, where that
/// counter exists and the sum fits in an `i64`; else the model unchanged.
pub open spec fn adjusted(m: Seq<(Seq<char>, int)>, index: Option<int>, delta: int) -> Seq<(Seq<char>, int)> {
    match index {
        Some(i) => if 0 <= i < m.len() && i64::MIN <= m[i].1 + delta <= i64::MAX {
            m.update(i, (m[i].0, m[i].1 + delta))
        } else {
            m
        },
        None => m,
    }
}

/// The selection after one step towards the start: nothing selected picks the
/// last counter, and the first counter stays where it is.
pub open spec fn step_previous(selected: Option<int>, len: int) -> Option<int> {
    if len == 0 {
        None
    } else {
        match selected {
            Some(i) => if i > 0 { Some(i - 1) } else { Some(0) },
            None => Some(len - 1),
        }
    }
}

/// The selection after one step towards the end: nothing selected picks the
/// first counter, and the last counter stays where it is.
pub open spec fn step_next(selected: Option<int>, len: int) -> Option<int> {
    if len == 0 {
        None
    } else {
        match selected {
            Some(i) => if i + 1 < len { Some(i + 1) } else { Some(len - 1) },
            None => Some(0),
        }
    }
}

/// The selection after the selected counter was removed from a list that now
/// holds `len` counters: it keeps its position, moved back onto the last
/// counter where it fell off the end, and is cleared when the list is empty.
pub open spec fn after_removal(selected: int, len: int) -> Option<int> {
    if len == 0 {
        None
    } else if selected < len {
        Some(selected)
    } else {
        Some(len - 1)
    }
}

/// Counters in display order, with a selection that is either empty or the
/// position of one of them.
pub struct CounterList {
    counters: Vec<Counter>,
    selected: Option<usize>,
}

impl CounterList {
    pub closed spec fn view(&self) -> ListModel {
        ListModel {
            counters: self.counters@.map_values(|c: Counter| c@),
            selected: match self.selected {
                Some(i) => Some(i as int),
                None => None,
            },
        }
    }

    /// Every count is an `i64`, and the selection designates an existing
    /// counter, if any.
    pub open spec fn wf(&self) -> bool {
        &&& forall|i: int|
            0 <= i < self.view().counters.len() ==> i64::MIN <= #[trigger] self.view().counters[i].1 <= i64::MAX
        &&& match self.view().selected {
            Some(i) => 0 <= i < self.view().counters.len(),
            None => true,
        }
    }

    /// An empty list with nothing selected.
    pub fn new() -> (r: CounterList)
        ensures
            r.wf(),
            r.view().counters == Seq::<(Seq<char>, int)>::empty(),
            r.view().selected is None,
    {
        let r = CounterList { counters: Vec::new(), selected: None };
        assert(r.view().counters =~= Seq::<(Seq<char>, int)>::empty());
        r
    }

    /// A list that starts with the given counters and nothing selected.
    pub fn from_counters(counters: Vec<Counter>) -> (r: CounterList)
        ensures
            r.wf(),
            r.view().counters == counters@.map_values(|c: Counter| c@),
            r.view().selected is None,
    {
        CounterList { counters, selected: None }
    }

    /// The number of counters.
    pub fn len(&self) -> (r: usize)
        ensures
            r == self.view().counters.len(),
    {
        self.counters.len()
    }

    /// The counters, in display order.
    pub fn counters(&self) -> (r: &Vec<Counter>)
        ensures
            r@.map_values(|c: Counter| c@) == self.view().counters,
    {
        &self.counters
    }

    /// The selected position, if any.
    pub fn selected(&self) -> (r: Option<usize>)
        requires
            self.wf(),
        ensures
            match r {
                Some(i) => self.view().selected == Some(i as int) && i < self.view().counters.len(),
                None => self.view().selected is None,
            },
    {
        self.selected
    }

    /// Adds a counter called `name`, at zero, after the others. Any name is
    /// accepted, the empty one included. The selection is kept.
    pub fn append(&mut self, name: &str)
        requires
            old(self).wf(),
        ensures
            final(self).wf(),
            final(self).view().counters == old(self).view().counters.push((name@, 0int)),
            final(self).view().selected == old(self).view().selected,
    {
        let c = Counter::new(name);
        self.counters.push(c);
        assert(self.view().counters =~= old(self).view().counters.push((name@, 0int)));
    }

    /// Adds `delta` to the count at `index`. Nothing changes where `index` is
    /// `None` or past the end, or where the sum does not fit in an `i64`.
    pub fn adjust(&mut self, index: Option<usize>, delta: i128)
        requires
            old(self).wf(),
        ensures
            final(self).wf(),
            final(self).view().counters == adjusted(
                old(self).view().counters,
                match index {
                    Some(i) => Some(i as int),
                    None => None,
                },
                delta as int,
            ),
            final(self).view().selected == old(self).view().selected,
    {
        if let Some(i) = index {
            if i < self.counters.len() {
                let current = self.counters[i].count;
                if let Some(sum) = (current as i128).checked_add(delta) {
                    if i64::MIN as i128 <= sum && sum <= i64::MAX as i128 {
                        self.counters[i].count = sum as i64;
                        assert(self.view().counters =~= old(self).view().counters.update(
                            i as int,
                            (old(self).view().counters[i as int].0, current + delta),
                        ));
                    }
                }
            }
        }
    }

    /// Removes the selected counter and repairs the selection in the same
    /// step. Nothing changes where nothing is selected.
    pub fn remove_selected(&mut self)
        requires
            old(self).wf(),
        ensures
            final(self).wf(),
            match old(self).view().selected {
                Some(i) => final(self).view().counters == old(self).view().counters.remove(i)
                    && final(self).view().selected == after_removal(i, old(self).view().counters.len() - 1),
                None => final(self).view() == old(self).view(),
            },
    {
        if let Some(i) = self.selected {
            self.counters.remove(i);
            let len = self.counters.len();
            self.selected = if len == 0 {
                None
            } else if i < len {
                Some(i)
            } else {
                Some(len - 1)
            };
            assert(self.view().counters =~= old(self).view().counters.remove(i as int));
        }
    }

    /// Moves the selection one counter towards the start, without wrapping.
    pub fn select_previous(&mut self)
        requires
            old(self).wf(),
        ensures
            final(self).wf(),
            final(self).view().counters == old(self).view().counters,
            final(self).view().selected == step_previous(old(self).view().selected, old(self).view().counters.len() as int),
    {
        let len = self.counters.len();
        self.selected = if len == 0 {
            None
        } else {
            match self.selected {
                Some(i) => if i > 0 { Some(i - 1) } else { Some(0) },
                None => Some(len - 1),
            }
        };
    }

    /// Moves the selection one counter towards the end, without wrapping.
    pub fn select_next(&mut self)
        requires
            old(self).wf(),
        ensures
            final(self).wf(),
            final(self).view().counters == old(self).view().counters,
            final(self).view().selected == step_next(old(self).view().selected, old(self).view().counters.len() as int),
    {
        let len = self.counters.len();
        self.selected = if len == 0 {
            None
        } else {
            match self.selected {
                Some(i) => if i + 1 < len { Some(i + 1) } else { Some(len - 1) },
                None => Some(0),
            }
        };
    }

    /// Selects nothing.
    pub fn clear_selection(&mut self)
        requires
            old(self).wf(),
        ensures
            final(self).wf(),
            final(self).view().counters == old(self).view().counters,
            final(self).view().selected is None,
    {
        self.selected = None;
    }
}

/// Adding `delta` to a counter and then taking `delta` away again gives back
/// the counts that the list started with, where the first sum fits in an
/// `i64`.
pub proof fn lemma_adjust_inverse(list: CounterList, i: int, delta: int)
    requires
        0 <= i < list.view().counters.len(),
        i64::MIN <= list.view().counters[i].1 + delta <= i64::MAX,
    ensures
        adjusted(adjusted(list.view().counters, Some(i), delta), Some(i), -delta) == list.view().counters,
{
    let m = list.view().counters;
    assert(m[i].1 == list.counters@[i].count as int);
    assert(adjusted(adjusted(m, Some(i), delta), Some(i), -delta) =~= m);
}

/// Removing the selected counter leaves a selection that is empty exactly
/// when no counter is left, and otherwise designates one of the counters that
/// remain.
pub proof fn lemma_removal_selection(counters: Seq<(Seq<char>, int)>, i: int)
    requires
        0 <= i < counters.len(),
    ensures
        match after_removal(i, counters.remove(i).len() as int) {
            Some(j) => 0 <= j < counters.remove(i).len(),
            None => counters.remove(i).len() == 0,
        },
{
}

} // verus!
