use vstd::prelude::*;

use crate::key::Key;
use crate::text::{pop_char, push_char};

verus! {

/// The text an input holds after a key: a character is appended, backspace
/// removes the last character if there is one, and other keys change nothing.
pub open spec fn edited(text: Seq<char>, key: Key) -> Seq<char> {
    match key {
        Key::Char(c) => text.push(c),
        Key::Backspace => if text.len() > 0 {
            text.drop_last()
        } else {
            text
        },
        _ => text,
    }
}

/// Whether a key edits an input, and so asks for a new search.
pub open spec fn is_edit(key: Key) -> bool {
    key is Char || key is Backspace
}

/// An editable line of text with an error flag.
pub struct TextInput {
    title: String,
    placeholder: String,
    focus_key: Key,
    error: bool,
    text: String,
}

impl TextInput {
    pub closed spec fn text_view(&self) -> Seq<char> {
        self.text@
    }

    pub closed spec fn error_view(&self) -> bool {
        self.error
    }

    pub closed spec fn key_view(&self) -> Key {
        self.focus_key
    }

    pub closed spec fn title_view(&self) -> Seq<char> {
        self.title@
    }

    pub closed spec fn placeholder_view(&self) -> Seq<char> {
        self.placeholder@
    }

    /// An empty input without error, activated by `focus_key`.
    pub fn new(title: String, placeholder: String, focus_key: Key) -> (r: Self)
        ensures
            r.text_view().len() == 0,
            !r.error_view(),
            r.key_view() == focus_key,
            r.title_view() == title@,
            r.placeholder_view() == placeholder@,
    {
        TextInput { title, placeholder, focus_key, error: false, text: String::new() }
    }

    /// A copy of the text.
    pub fn text(&mut self) -> (r: String)
        ensures
            r@ == old(self).text_view(),
            *final(self) == *old(self),
    {
        self.text.clone()
    }

    /// Sets the error flag.
    pub fn error(&mut self, error: bool)
        ensures
            final(self).error_view() == error,
            final(self).text_view() == old(self).text_view(),
            final(self).key_view() == old(self).key_view(),
            final(self).title_view() == old(self).title_view(),
            final(self).placeholder_view() == old(self).placeholder_view(),
    {
        self.error = error;
    }

    /// The text, borrowed.
    pub fn value(&self) -> (r: &String)
        ensures
            r@ == self.text_view(),
    {
        &self.text
    }

    pub fn has_error(&self) -> (r: bool)
        ensures
            r == self.error_view(),
    {
        self.error
    }

    pub fn title(&self) -> (r: &String)
        ensures
            r@ == self.title_view(),
    {
        &self.title
    }

    pub fn placeholder(&self) -> (r: &String)
        ensures
            r@ == self.placeholder_view(),
    {
        &self.placeholder
    }

    pub fn focus_key(&self) -> (r: Key)
        ensures
            r == self.key_view(),
    {
        self.focus_key
    }

    /// Edits the text on a key. An edit clears the error flag and returns
    /// `true`, asking for a new search; any other key changes nothing and
    /// returns `false`.
    pub fn handle_key(&mut self, key: Key) -> (search: bool)
        ensures
            search == is_edit(key),
            final(self).text_view() == edited(old(self).text_view(), key),
            final(self).error_view() == (old(self).error_view() && !is_edit(key)),
            final(self).key_view() == old(self).key_view(),
            final(self).title_view() == old(self).title_view(),
            final(self).placeholder_view() == old(self).placeholder_view(),
    {
        match key {
            Key::Backspace => {
                let _ = pop_char(&mut self.text);
                self.error = false;
                true
            },
            Key::Char(c) => {
                push_char(&mut self.text, c);
                self.error = false;
                true
            },
            _ => false,
        }
    }
}

} // verus!
