//! Values that can be written as text and read back from it.
//!
//! The settings store keeps strings. A key or a value goes in through
//! `ToText`, and a value comes out through `FromText`.

use vstd::prelude::*;

verus! {

/// A value with a string form.
pub trait ToText {
    /// The string form of the value.
    spec fn text(&self) -> Seq<char>;

    /// Writes the value as a string.
    fn to_text(&self) -> (s: String)
        ensures
            s@ == self.text(),
    ;
}

/// A value that can be read from a string.
pub trait FromText: Sized + View {
    /// The value that a string stands for, if it stands for one.
    spec fn parsed(text: Seq<char>) -> Option<Self::V>;

    /// Reads a value from a string.
    fn from_text(text: &str) -> (value: Option<Self>)
        ensures
            viewed(value) == Self::parsed(text@),
    ;
}

/// The view of a value that may be absent.
pub open spec fn viewed<T: View>(value: Option<T>) -> Option<T::V> {
    match value {
        Some(v) => Some(v@),
        None => None,
    }
}

/// A value whose string form reads back as the value itself.
pub open spec fn round_trips<T: ToText + FromText>(value: T) -> bool {
    T::parsed(value.text()) == Some(value@)
}

impl ToText for String {
    open spec fn text(&self) -> Seq<char> {
        self@
    }

    fn to_text(&self) -> (s: String) {
        self.clone()
    }
}

impl FromText for String {
    open spec fn parsed(text: Seq<char>) -> Option<Seq<char>> {
        Some(text)
    }

    fn from_text(text: &str) -> (value: Option<String>) {
        Some(text.to_owned())
    }
}

/// Every string is read back from its text.
pub proof fn lemma_string_round_trips(value: String)
    ensures
        round_trips(value),
{
}

impl<'a> ToText for &'a str {
    open spec fn text(&self) -> Seq<char> {
        self@
    }

    fn to_text(&self) -> (s: String) {
        (*self).to_owned()
    }
}

} // verus!
