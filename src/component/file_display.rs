use vstd::prelude::*;

use crate::key::Key;

verus! {

/// The selection after moving down one item in a list of `len` items,
/// wrapping from the last item to the first.
pub open spec fn next_index(selected: Option<usize>, len: nat) -> Option<usize> {
    if len == 0 {
        selected
    } else {
        match selected {
            Some(i) => if i == len - 1 {
                Some(0)
            } else {
                Some((i + 1) as usize)
            },
            None => Some(0),
        }
    }
}

/// The selection after moving up one item in a list of `len` items,
/// wrapping from the first item to the last.
pub open spec fn prev_index(selected: Option<usize>, len: nat) -> Option<usize> {
    if len == 0 {
        selected
    } else {
        match selected {
            Some(i) => if i == 0 {
                Some((len - 1) as usize)
            } else {
                Some((i - 1) as usize)
            },
            None => Some((len - 1) as usize),
        }
    }
}

/// The selection after `k` moves up.
pub open spec fn prev_times(selected: Option<usize>, len: nat, k: nat) -> Option<usize>
    decreases k,
{
    if k == 0 {
        selected
    } else {
        prev_index(prev_times(selected, len, (k - 1) as nat), len)
    }
}

/// The list of matches with a cursor over it.
pub struct FileDisplay {
    selected: Option<usize>,
    items: Vec<(u32, String)>,
    title: String,
    focus_key: Key,
}

impl FileDisplay {
    pub closed spec fn items_view(&self) -> Seq<(u32, String)> {
        self.items@
    }

    pub closed spec fn selected_view(&self) -> Option<usize> {
        self.selected
    }

    pub closed spec fn title_view(&self) -> Seq<char> {
        self.title@
    }

    pub closed spec fn key_view(&self) -> Key {
        self.focus_key
    }

    /// The cursor, where there is one, stands on an item.
    pub open spec fn wf(&self) -> bool {
        self.selected_view() matches Some(i) ==> i < self.items_view().len()
    }

    pub fn new(title: String, focus_key: Key) -> (r: Self)
        ensures
            r.wf(),
            r.items_view().len() == 0,
            r.selected_view() is None,
            r.title_view() == title@,
            r.key_view() == focus_key,
    {
        FileDisplay { selected: None, items: Vec::new(), title, focus_key }
    }

    /// Replaces the list; the selection is cleared.
    pub fn set_items(&mut self, items: Vec<(u32, String)>)
        ensures
            final(self).wf(),
            final(self).items_view() == items@,
            final(self).selected_view() is None,
            final(self).title_view() == old(self).title_view(),
            final(self).key_view() == old(self).key_view(),
    {
        self.items = items;
        self.selected = None;
    }

    pub fn items(&self) -> (r: &Vec<(u32, String)>)
        ensures
            r@ == self.items_view(),
    {
        &self.items
    }

    pub fn selected(&self) -> (r: Option<usize>)
        ensures
            r == self.selected_view(),
    {
        self.selected
    }

    pub fn title(&self) -> (r: &String)
        ensures
            r@ == self.title_view(),
    {
        &self.title
    }

    pub fn focus_key(&self) -> (r: Key)
        ensures
            r == self.key_view(),
    {
        self.focus_key
    }

    /// Moves the selection down one item, wrapping to the first.
    pub fn next(&mut self)
        requires
            old(self).wf(),
        ensures
            final(self).wf(),
            final(self).selected_view() == next_index(
                old(self).selected_view(),
                old(self).items_view().len(),
            ),
            final(self).items_view() == old(self).items_view(),
            final(self).title_view() == old(self).title_view(),
            final(self).key_view() == old(self).key_view(),
    {
        if self.items.len() == 0 {
            return;
        }
        let i = match self.selected {
            Some(i) => if i == self.items.len() - 1 {
                0
            } else {
                i + 1
            },
            None => 0,
        };
        self.selected = Some(i);
    }

    /// Moves the selection up one item, wrapping to the last.
    pub fn prev(&mut self)
        requires
            old(self).wf(),
        ensures
            final(self).wf(),
            final(self).selected_view() == prev_index(
                old(self).selected_view(),
                old(self).items_view().len(),
            ),
            final(self).items_view() == old(self).items_view(),
            final(self).title_view() == old(self).title_view(),
            final(self).key_view() == old(self).key_view(),
    {
        if self.items.len() == 0 {
            return;
        }
        let i = match self.selected {
            Some(i) => if i == 0 {
                self.items.len() - 1
            } else {
                i - 1
            },
            None => self.items.len() - 1,
        };
        self.selected = Some(i);
    }

    /// Clears the selection.
    pub fn unselect(&mut self)
        ensures
            final(self).wf(),
            final(self).selected_view() is None,
            final(self).items_view() == old(self).items_view(),
            final(self).title_view() == old(self).title_view(),
            final(self).key_view() == old(self).key_view(),
    {
        self.selected = None;
    }

    /// Navigates on a key: cancel clears the selection, up or `k` moves up,
    /// down or `j` moves down, and any other key is ignored. The list never
    /// asks for a search.
    pub fn handle_key(&mut self, key: Key) -> (search: bool)
        requires
            old(self).wf(),
        ensures
            final(self).wf(),
            !search,
            final(self).selected_view() == (match key {
                Key::Esc => None,
                Key::Up | Key::Char('k') => prev_index(
                    old(self).selected_view(),
                    old(self).items_view().len(),
                ),
                Key::Down | Key::Char('j') => next_index(
                    old(self).selected_view(),
                    old(self).items_view().len(),
                ),
                _ => old(self).selected_view(),
            }),
            final(self).items_view() == old(self).items_view(),
            final(self).title_view() == old(self).title_view(),
            final(self).key_view() == old(self).key_view(),
    {
        match key {
            Key::Esc => self.unselect(),
            Key::Up | Key::Char('k') => self.prev(),
            Key::Down | Key::Char('j') => self.next(),
            _ => {},
        }
        false
    }
}

/// Moving up `k` times, for `k` up to the number of items, from an item of a
/// non-empty list lands `k` items earlier, counted round the list; so the
/// selection never leaves the list, and as many moves as there are items come
/// back to where they started.
pub proof fn law_prev_cycles(i: usize, len: nat, k: nat)
    requires
        i < len,
        len <= usize::MAX,
        k <= len,
    ensures
        prev_times(Some(i), len, k) == Some((if k <= i { i - k } else { i + len - k }) as usize),
        k == len ==> prev_times(Some(i), len, k) == Some(i),
    decreases k,
{
    if k > 0 {
        law_prev_cycles(i, len, (k - 1) as nat);
    }
}

/// From no selection, one move down takes the first item, and as many moves
/// up as there are items come back to it.
pub proof fn law_next_then_prev_cycles(len: nat)
    requires
        0 < len <= usize::MAX,
    ensures
        next_index(None, len) == Some(0usize),
        prev_times(next_index(None, len), len, len) == next_index(None, len),
{
    law_prev_cycles(0, len, len);
}

} // verus!
