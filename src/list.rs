use vstd::prelude::*;

verus! {

/// The mathematical value of a [`StatefulList`]: its items and the index of
/// the selected one, if any.
pub struct ListModel {
    pub items: Seq<Seq<char>>,
    pub selected: Option<usize>,
}

impl ListModel {
    /// The length fits a `usize`, and a selection, when present, points at
    /// an item.
    pub open spec fn wf(self) -> bool {
        &&& self.items.len() <= usize::MAX
        &&& match self.selected {
            Some(i) => i < self.items.len(),
            None => true,
        }
    }

    /// Cyclic step forward; an unselected non-empty list selects its first item.
    pub open spec fn next(self) -> ListModel {
        if self.items.len() == 0 {
            self
        } else {
            let i: usize = match self.selected {
                Some(i) => ((i + 1) % (self.items.len() as int)) as usize,
                None => 0,
            };
            ListModel { selected: Some(i), ..self }
        }
    }

    /// Cyclic step backward; an unselected non-empty list selects its first item.
    pub open spec fn previous(self) -> ListModel {
        if self.items.len() == 0 {
            self
        } else {
            let i: usize = match self.selected {
                Some(i) => if i == 0 {
                    (self.items.len() - 1) as usize
                } else {
                    (i - 1) as usize
                },
                None => 0,
            };
            ListModel { selected: Some(i), ..self }
        }
    }

    /// The list after `n` forward steps.
    pub open spec fn next_n(self, n: nat) -> ListModel
        decreases n,
    {
        if n == 0 {
            self
        } else {
            self.next_n((n - 1) as nat).next()
        }
    }

    /// The list after `n` backward steps.
    pub open spec fn previous_n(self, n: nat) -> ListModel
        decreases n,
    {
        if n == 0 {
            self
        } else {
            self.previous_n((n - 1) as nat).previous()
        }
    }

    /// Appends an item; the selection is kept.
    pub open spec fn push(self, item: Seq<char>) -> ListModel {
        ListModel { items: self.items.push(item), ..self }
    }

    /// The selected item, when the selection points at one.
    pub open spec fn selected_item(self) -> Option<Seq<char>> {
        match self.selected {
            Some(i) => if i < self.items.len() {
                Some(self.items[i as int])
            } else {
                None
            },
            None => None,
        }
    }

    /// Removes the selected item and clears the selection; without a
    /// selection nothing changes.
    pub open spec fn remove_selected(self) -> ListModel {
        match self.selected {
            Some(i) => if i < self.items.len() {
                ListModel { items: self.items.remove(i as int), selected: None }
            } else {
                self
            },
            None => self,
        }
    }
}

/// An ordered list of strings with an optional selected index.
pub struct StatefulList {
    pub items: Vec<String>,
    pub selected: Option<usize>,
}

impl View for StatefulList {
    type V = ListModel;

    open spec fn view(&self) -> ListModel {
        ListModel { items: self.items@.map_values(|s: String| s@), selected: self.selected }
    }
}

impl StatefulList {
    pub open spec fn wf(&self) -> bool {
        self@.wf()
    }

    /// An empty list with nothing selected.
    pub fn new() -> (r: StatefulList)
        ensures
            r@.items == Seq::<Seq<char>>::empty(),
            r@.selected is None,
    {
        let r = StatefulList { items: Vec::new(), selected: None };
        assert(r@.items =~= Seq::<Seq<char>>::empty());
        r
    }

    pub fn len(&self) -> (r: usize)
        ensures
            r == self@.items.len(),
    {
        self.items.len()
    }

    /// Moves the selection one step forward, wrapping from the last item to
    /// the first. Does nothing on an empty list.
    pub fn next(&mut self)
        requires
            old(self).wf(),
        ensures
            final(self)@ == old(self)@.next(),
            final(self).wf(),
            old(self)@.items.len() == 0 ==> final(self).selected == old(self).selected,
    {
        let len = self.items.len();
        if len == 0 {
            return;
        }
        let i: usize = match self.selected {
            Some(i) => if i >= len - 1 {
                0
            } else {
                i + 1
            },
            None => 0,
        };
        proof {
            if let Some(j) = old(self).selected {
                if j + 1 < len {
                    vstd::arithmetic::div_mod::lemma_small_mod((j + 1) as nat, len as nat);
                } else {
                    vstd::arithmetic::div_mod::lemma_mod_self_0(len as int);
                }
            }
        }
        self.selected = Some(i);
    }

    /// Moves the selection one step backward, wrapping from the first item to
    /// the last. Does nothing on an empty list.
    pub fn previous(&mut self)
        requires
            old(self).wf(),
        ensures
            final(self)@ == old(self)@.previous(),
            final(self).wf(),
            old(self)@.items.len() == 0 ==> final(self).selected == old(self).selected,
    {
        let len = self.items.len();
        if len == 0 {
            return;
        }
        let i: usize = match self.selected {
            Some(i) => if i == 0 {
                len - 1
            } else {
                i - 1
            },
            None => 0,
        };
        self.selected = Some(i);
    }

    /// Appends an item at the end; the selection is kept.
    pub fn push(&mut self, item: String)
        requires
            old(self).wf(),
        ensures
            final(self)@ == old(self)@.push(item@),
            final(self).wf(),
    {
        self.items.push(item);
        let len = self.items.len();
        assert(self@.items =~= old(self)@.items.push(item@));
        assert(len == self@.items.len());
    }

    /// Removes and returns the selected item, leaving nothing selected.
    /// Without a selection the list is left as it is.
    pub fn remove_selected(&mut self) -> (r: Option<String>)
        requires
            old(self).wf(),
        ensures
            final(self)@ == old(self)@.remove_selected(),
            final(self).wf(),
            match r {
                Some(s) => old(self)@.selected_item() == Some(s@),
                None => old(self)@.selected_item() is None,
            },
    {
        match self.selected {
            Some(i) => {
                let item = self.items.remove(i);
                self.selected = None;
                assert(self@.items =~= old(self)@.items.remove(i as int));
                Some(item)
            },
            None => None,
        }
    }
}

} // verus!
