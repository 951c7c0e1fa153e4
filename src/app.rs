use vstd::prelude::*;

use crate::component::file_display::FileDisplay;
use crate::component::text_input::{edited, is_edit, TextInput};
use crate::grep::{grep, matches_in, lines_of, view_matches, GrepError};
use crate::key::Key;
use crate::layout::{area_for, extent, Rect};

verus! {

/// The larger of two integers.
pub open spec fn max(a: int, b: int) -> int {
    if a < b {
        b
    } else {
        a
    }
}

/// The element that a key activates while nothing has focus: the first, in
/// the order query, path, results, whose activation key it is.
pub open spec fn focus_for(keys: (Key, Key, Key), key: Key) -> Option<usize> {
    if keys.0 == key {
        Some(0usize)
    } else if keys.1 == key {
        Some(1usize)
    } else if keys.2 == key {
        Some(2usize)
    } else {
        None
    }
}

/// The query input, the path input and the list of results, with the focus
/// that routes keys to one of them. Index 0 is the query, 1 the path and 2
/// the results.
pub struct App {
    pub do_search: bool,
    query: TextInput,
    path: TextInput,
    results: FileDisplay,
    pub focused_index: Option<usize>,
    min_width: u16,
    min_height: u16,
}

impl App {
    pub closed spec fn focus_view(&self) -> Option<usize> {
        self.focused_index
    }

    pub closed spec fn pending_view(&self) -> bool {
        self.do_search
    }

    pub closed spec fn query_view(&self) -> TextInput {
        self.query
    }

    pub closed spec fn path_view(&self) -> TextInput {
        self.path
    }

    pub closed spec fn results_view(&self) -> FileDisplay {
        self.results
    }

    pub closed spec fn min_width_view(&self) -> u16 {
        self.min_width
    }

    pub closed spec fn min_height_view(&self) -> u16 {
        self.min_height
    }

    /// The activation keys of the three elements, in order.
    pub open spec fn keys(&self) -> (Key, Key, Key) {
        (
            self.query_view().key_view(),
            self.path_view().key_view(),
            self.results_view().key_view(),
        )
    }

    /// Focus, where there is some, is on one of the three elements, whose
    /// activation keys are `/`, `f` and `r`; the cursor of the results stands
    /// on an item.
    pub open spec fn wf(&self) -> bool {
        &&& self.focus_view() matches Some(i) ==> i < 3
        &&& self.keys() == (Key::Char('/'), Key::Char('f'), Key::Char('r'))
        &&& self.results_view().wf()
    }

    /// An application with empty inputs, no results and nothing focused.
    pub fn new() -> (r: Self)
        ensures
            r.wf(),
            !r.pending_view(),
            r.focus_view() is None,
            r.query_view().text_view().len() == 0,
            !r.query_view().error_view(),
            r.query_view().title_view() == "Search"@,
            r.query_view().placeholder_view() == "Foo"@,
            r.path_view().text_view().len() == 0,
            !r.path_view().error_view(),
            r.path_view().title_view() == "File"@,
            r.path_view().placeholder_view() == "./folder/file.txt"@,
            r.results_view().items_view().len() == 0,
            r.results_view().selected_view() is None,
            r.results_view().title_view() == "Results"@,
            r.min_width_view() == max(
                max(extent(Key::Char('/')).0, extent(Key::Char('f')).0),
                extent(Key::Char('r')).0,
            ),
            r.min_height_view() == max(
                max(extent(Key::Char('/')).1, extent(Key::Char('f')).1),
                extent(Key::Char('r')).1,
            ),
    {
        let mut app = App {
            do_search: false,
            query: TextInput::new(String::from_str("Search"), String::from_str("Foo"), Key::Char('/')),
            path: TextInput::new(
                String::from_str("File"),
                String::from_str("./folder/file.txt"),
                Key::Char('f'),
            ),
            results: FileDisplay::new(String::from_str("Results"), Key::Char('r')),
            focused_index: None,
            min_width: 0,
            min_height: 0,
        };
        let keys = [Key::Char('/'), Key::Char('f'), Key::Char('r')];
        let mut min_width: u16 = 0;
        let mut min_height: u16 = 0;
        let mut i: usize = 0;
        while i < 3
            invariant
                app.wf(),
                keys@ == seq![Key::Char('/'), Key::Char('f'), Key::Char('r')],
                i <= 3,
                i == 0 ==> min_width == 0 && min_height == 0,
                i == 1 ==> min_width == max(0, extent(keys@[0]).0) && min_height == max(
                    0,
                    extent(keys@[0]).1,
                ),
                i == 2 ==> min_width == max(max(0, extent(keys@[0]).0), extent(keys@[1]).0)
                    && min_height == max(max(0, extent(keys@[0]).1), extent(keys@[1]).1),
                i == 3 ==> min_width == max(
                    max(max(0, extent(keys@[0]).0), extent(keys@[1]).0),
                    extent(keys@[2]).0,
                ) && min_height == max(
                    max(max(0, extent(keys@[0]).1), extent(keys@[1]).1),
                    extent(keys@[2]).1,
                ),
                // and the rest of the application is as built above
                !app.pending_view(),
                app.focus_view() is None,
                app.query_view().text_view().len() == 0,
                !app.query_view().error_view(),
                app.query_view().title_view() == "Search"@,
                app.query_view().placeholder_view() == "Foo"@,
                app.path_view().text_view().len() == 0,
                !app.path_view().error_view(),
                app.path_view().title_view() == "File"@,
                app.path_view().placeholder_view() == "./folder/file.txt"@,
                app.results_view().items_view().len() == 0,
                app.results_view().selected_view() is None,
                app.results_view().title_view() == "Results"@,
            decreases 3 - i,
        {
            let rect = app.area(Rect::new(0, 0, 0, 0), keys[i]);
            let width = rect.x + rect.width;
            if min_width < width {
                min_width = width;
            }
            let height = rect.y + rect.height;
            if min_height < height {
                min_height = height;
            }
            i += 1;
        }
        app.min_width = min_width;
        app.min_height = min_height;
        app
    }

    /// The region of the element activated by `focus_key`, within `rect`.
    pub fn area(&mut self, rect: Rect, focus_key: Key) -> (r: Rect)
        ensures
            r == area_for(rect, focus_key),
            *final(self) == *old(self),
    {
        let mut rect = rect;
        match focus_key {
            Key::Char('/') => {
                rect.height = 3;
            },
            Key::Char('f') => {
                rect.y = 3;
                rect.height = 3;
            },
            Key::Char('r') => {
                if rect.height >= 6 {
                    rect.height -= 6;
                }
                rect.y = 6;
            },
            _ => {},
        }
        rect
    }

    /// Whether a terminal of the given size can show every element.
    pub fn fits(&self, width: u16, height: u16) -> (r: bool)
        ensures
            r == (width >= self.min_width_view() && height >= self.min_height_view()),
    {
        width >= self.min_width && height >= self.min_height
    }

    pub fn query(&self) -> (r: &TextInput)
        ensures
            *r == self.query_view(),
    {
        &self.query
    }

    pub fn path(&self) -> (r: &TextInput)
        ensures
            *r == self.path_view(),
    {
        &self.path
    }

    pub fn results(&self) -> (r: &FileDisplay)
        ensures
            *r == self.results_view(),
    {
        &self.results
    }

    /// A copy of the path's text, the file that the next search reads.
    pub fn path_text(&mut self) -> (r: String)
        ensures
            r@ == old(self).path_view().text_view(),
            *final(self) == *old(self),
    {
        self.path.text()
    }

    /// Routes a key. With nothing focused the key can only give focus, to the
    /// element whose activation key it is. With an element focused the key
    /// goes to that element; an edit of the query or the path asks for a
    /// search, and the cancel key, once the element has seen it, takes the
    /// focus away.
    pub fn handle_key(&mut self, key: Key)
        requires
            old(self).wf(),
        ensures
            final(self).wf(),
            final(self).min_width_view() == old(self).min_width_view(),
            final(self).min_height_view() == old(self).min_height_view(),
            old(self).focus_view() is None ==> {
                &&& final(self).focus_view() == focus_for(old(self).keys(), key)
                &&& final(self).pending_view() == old(self).pending_view()
                &&& final(self).query_view() == old(self).query_view()
                &&& final(self).path_view() == old(self).path_view()
                &&& final(self).results_view() == old(self).results_view()
            },
            old(self).focus_view() matches Some(i) ==> {
                &&& final(self).focus_view() == if key == Key::Esc {
                    None
                } else {
                    Some(i)
                }
                &&& final(self).pending_view() == (old(self).pending_view() || (i < 2 && is_edit(key)))
                &&& i != 0 ==> final(self).query_view() == old(self).query_view()
                &&& i != 1 ==> final(self).path_view() == old(self).path_view()
                &&& i != 2 ==> final(self).results_view() == old(self).results_view()
                &&& i == 0 ==> edits(old(self).query_view(), final(self).query_view(), key)
                &&& i == 1 ==> edits(old(self).path_view(), final(self).path_view(), key)
                &&& i == 2 ==> final(self).results_view().selected_view() == (match key {
                    Key::Esc => None,
                    Key::Up | Key::Char('k') => crate::component::file_display::prev_index(
                        old(self).results_view().selected_view(),
                        old(self).results_view().items_view().len(),
                    ),
                    Key::Down | Key::Char('j') => crate::component::file_display::next_index(
                        old(self).results_view().selected_view(),
                        old(self).results_view().items_view().len(),
                    ),
                    _ => old(self).results_view().selected_view(),
                })
                &&& i == 2 ==> final(self).results_view().items_view()
                    == old(self).results_view().items_view()
            },
    {
        match self.focused_index {
            None => {
                if self.query.focus_key() == key {
                    self.focused_index = Some(0);
                } else if self.path.focus_key() == key {
                    self.focused_index = Some(1);
                } else if self.results.focus_key() == key {
                    self.focused_index = Some(2);
                }
                return;
            },
            Some(i) => {
                let search = if i == 0 {
                    self.query.handle_key(key)
                } else if i == 1 {
                    self.path.handle_key(key)
                } else {
                    self.results.handle_key(key)
                };
                if search {
                    self.do_search = true;
                }
            },
        }
        if key == Key::Esc {
            self.focused_index = None;
        }
    }

    /// Takes the outcome of reading the file named by the path and finishes
    /// the search: a missing path, or one that is no file, marks the path as
    /// wrong; another failure of the file system changes nothing; contents
    /// replace the results with the matches of the query, and no match marks
    /// the query. Either way no search is pending afterwards.
    pub fn search(&mut self, loaded: Result<String, GrepError>)
        requires
            old(self).wf(),
            loaded matches Ok(c) ==> lines_of(c@).len() <= u32::MAX,
        ensures
            final(self).wf(),
            !final(self).pending_view(),
            final(self).focus_view() == old(self).focus_view(),
            final(self).min_width_view() == old(self).min_width_view(),
            final(self).min_height_view() == old(self).min_height_view(),
            final(self).query_view().text_view() == old(self).query_view().text_view(),
            final(self).path_view().text_view() == old(self).path_view().text_view(),
            match loaded {
                Ok(c) => {
                    let found = matches_in(c@, old(self).query_view().text_view());
                    &&& view_matches(final(self).results_view().items_view()) == found
                    &&& final(self).results_view().selected_view() is None
                    &&& final(self).query_view().error_view() == (
                    old(self).query_view().error_view() || found.len() == 0)
                    &&& final(self).path_view() == old(self).path_view()
                },
                Err(GrepError::FileSystemIssue(_)) => {
                    &&& final(self).query_view() == old(self).query_view()
                    &&& final(self).path_view() == old(self).path_view()
                    &&& final(self).results_view() == old(self).results_view()
                },
                Err(_) => {
                    &&& final(self).path_view().error_view()
                    &&& final(self).query_view() == old(self).query_view()
                    &&& final(self).results_view() == old(self).results_view()
                },
            },
    {
        self.do_search = false;
        match loaded {
            Ok(contents) => {
                let search_text = self.query.text();
                let results = grep(contents, search_text);
                if results.len() == 0 {
                    self.query.error(true);
                }
                self.results.set_items(results);
            },
            Err(GrepError::FileSystemIssue(_)) => {},
            Err(_) => {
                self.path.error(true);
            },
        }
    }
}

/// `after` is `before` with `key` applied: the text edited, the error flag
/// cleared by an edit, and the rest kept.
pub open spec fn edits(before: TextInput, after: TextInput, key: Key) -> bool {
    &&& after.text_view() == edited(before.text_view(), key)
    &&& after.error_view() == (before.error_view() && !is_edit(key))
    &&& after.key_view() == before.key_view()
    &&& after.title_view() == before.title_view()
    &&& after.placeholder_view() == before.placeholder_view()
}

} // verus!
