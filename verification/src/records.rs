//! Records that the state stores and hands on without looking inside.

use vstd::prelude::*;

verus! {

/// A colour theme, known here by its name.
#[derive(Debug)]
pub struct Theme {
    /// The name under which the theme is listed.
    pub name: String,
}

impl Theme {
    /// Name of the theme that a fresh state starts with.
    pub open spec fn default_name() -> Seq<char> {
        "default"@
    }
}

impl Default for Theme {
    /// The theme that a fresh state starts with.
    fn default() -> (theme: Theme)
        ensures
            theme.name@ == Theme::default_name(),
    {
        Theme { name: "default".to_string() }
    }
}

/// An artist, as listed in a popup.
#[derive(Debug)]
pub struct Artist {
    /// The id under which the service knows the artist.
    pub id: String,
    /// The artist's name.
    pub name: String,
}

/// One key press.
#[derive(Copy, Clone, Debug, PartialEq, Eq, Structural)]
pub enum Key {
    /// A character key.
    Char(char),
    /// A character key with Ctrl held down.
    Ctrl(char),
    /// A character key with Alt held down.
    Alt(char),
    /// A function key, by its number.
    Function(u8),
    /// A key that the terminal reported and this crate has no name for.
    Unknown,
}

/// The keys pressed so far that do not yet make up a command.
#[derive(Debug)]
pub struct KeySequence {
    /// The keys, in the order in which they were pressed.
    pub keys: Vec<Key>,
}

} // verus!
