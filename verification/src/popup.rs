//! The popup: an overlay drawn above the window.

use crate::cursor::{list_cursor, Cursor};
use crate::records::{Artist, Theme};
use tui::widgets::ListState;
use vstd::prelude::*;

verus! {

/// The overlay on screen, if any.
///
/// A popup that shows a list holds the cursor of that list, and the items
/// too where they were fetched for the popup alone: the items are a snapshot
/// taken when the popup was opened.
#[derive(Debug)]
pub enum PopupState {
    /// No popup is shown.
    Closed,
    /// The table of commands and their keys.
    CommandHelp,
    /// A search in the current window, with the query typed so far.
    ContextSearch(String),
    /// The user's playlists.
    PlaylistList(ListState),
    /// The playback devices.
    DeviceList(ListState),
    /// The artists of a track or an album.
    ArtistList(Vec<Artist>, ListState),
    /// The themes to choose from.
    ThemeList(Vec<Theme>, ListState),
}

/// A popup as plain values: the query by its characters, each cursor by
/// what it holds.
pub enum PopupView {
    /// No popup is shown.
    Closed,
    /// The table of commands and their keys.
    CommandHelp,
    /// A search, with the query typed so far.
    ContextSearch(Seq<char>),
    /// The user's playlists.
    PlaylistList(Cursor),
    /// The playback devices.
    DeviceList(Cursor),
    /// The artists listed, and the cursor in that list.
    ArtistList { artists: Seq<Artist>, cursor: Cursor },
    /// The themes listed, and the cursor in that list.
    ThemeList { themes: Seq<Theme>, cursor: Cursor },
}

impl View for PopupState {
    type V = PopupView;

    open spec fn view(&self) -> PopupView {
        match *self {
            PopupState::Closed => PopupView::Closed,
            PopupState::CommandHelp => PopupView::CommandHelp,
            PopupState::ContextSearch(query) => PopupView::ContextSearch(query@),
            PopupState::PlaylistList(state) => PopupView::PlaylistList(list_cursor(state)),
            PopupState::DeviceList(state) => PopupView::DeviceList(list_cursor(state)),
            PopupState::ArtistList(artists, state) => PopupView::ArtistList {
                artists: artists@,
                cursor: list_cursor(state),
            },
            PopupState::ThemeList(themes, state) => PopupView::ThemeList {
                themes: themes@,
                cursor: list_cursor(state),
            },
        }
    }
}

impl PopupView {
    /// The cursor of a popup that shows a list; `None` for the others.
    pub open spec fn cursor(self) -> Option<Cursor> {
        match self {
            PopupView::PlaylistList(cursor) => Some(cursor),
            PopupView::DeviceList(cursor) => Some(cursor),
            PopupView::ArtistList { cursor, .. } => Some(cursor),
            PopupView::ThemeList { cursor, .. } => Some(cursor),
            _ => None,
        }
    }

    /// The popup with `cursor` in place of its own; a popup without a list
    /// is left as it is.
    pub open spec fn with_cursor(self, cursor: Cursor) -> PopupView {
        match self {
            PopupView::PlaylistList(_) => PopupView::PlaylistList(cursor),
            PopupView::DeviceList(_) => PopupView::DeviceList(cursor),
            PopupView::ArtistList { artists, .. } => PopupView::ArtistList { artists, cursor },
            PopupView::ThemeList { themes, .. } => PopupView::ThemeList { themes, cursor },
            _ => self,
        }
    }

    /// The selected position in the popup's list.
    pub open spec fn selected(self) -> Option<usize> {
        match self.cursor() {
            Some(cursor) => cursor.selected,
            None => None,
        }
    }

    /// The popup after a selection command.
    pub open spec fn select(self, id: Option<usize>) -> PopupView {
        match self.cursor() {
            Some(cursor) => self.with_cursor(cursor.select(id)),
            None => self,
        }
    }

    /// The artist under the cursor of an artist list: none where nothing is
    /// selected, or where the selected position lies beyond the list.
    pub open spec fn selected_artist(self) -> Option<Artist> {
        match self {
            PopupView::ArtistList { artists, cursor } => match cursor.selected {
                Some(id) if id < artists.len() => Some(artists[id as int]),
                _ => None,
            },
            _ => None,
        }
    }

    /// The theme under the cursor of a theme list: none where nothing is
    /// selected, or where the selected position lies beyond the list.
    pub open spec fn selected_theme(self) -> Option<Theme> {
        match self {
            PopupView::ThemeList { themes, cursor } => match cursor.selected {
                Some(id) if id < themes.len() => Some(themes[id as int]),
                _ => None,
            },
            _ => None,
        }
    }
}

impl PopupState {
    /// A popup on the user's playlists, with a fresh cursor.
    pub fn playlist_list() -> (popup: PopupState)
        ensures
            popup@ == PopupView::PlaylistList(Cursor::fresh()),
    {
        PopupState::PlaylistList(ListState::default())
    }

    /// A popup on the playback devices, with a fresh cursor.
    pub fn device_list() -> (popup: PopupState)
        ensures
            popup@ == PopupView::DeviceList(Cursor::fresh()),
    {
        PopupState::DeviceList(ListState::default())
    }

    /// A popup on the given artists, with a fresh cursor.
    pub fn artist_list(artists: Vec<Artist>) -> (popup: PopupState)
        ensures
            popup@ == (PopupView::ArtistList { artists: artists@, cursor: Cursor::fresh() }),
    {
        PopupState::ArtistList(artists, ListState::default())
    }

    /// A popup on the given themes, with a fresh cursor.
    pub fn theme_list(themes: Vec<Theme>) -> (popup: PopupState)
        ensures
            popup@ == (PopupView::ThemeList { themes: themes@, cursor: Cursor::fresh() }),
    {
        PopupState::ThemeList(themes, ListState::default())
    }

    /// Gets the state of the current list popup.
    pub fn get_list_state(&self) -> (state: Option<&ListState>)
        ensures
            match state {
                Some(list) => self@.cursor() == Some(list_cursor(*list)),
                None => self@.cursor() is None,
            },
    {
        match self {
            PopupState::DeviceList(state) => Some(state),
            PopupState::PlaylistList(state) => Some(state),
            PopupState::ArtistList(_, state) => Some(state),
            PopupState::ThemeList(_, state) => Some(state),
            _ => None,
        }
    }

    /// Gets the state of the current list popup, for the renderer to drive.
    pub fn get_list_state_mut(&mut self) -> (state: Option<&mut ListState>)
        ensures
            match state {
                Some(list) => {
                    &&& old(self)@.cursor() == Some(list_cursor(*list))
                    &&& final(self)@ == old(self)@.with_cursor(list_cursor(*final(list)))
                },
                None => old(self)@.cursor() is None && *final(self) == *old(self),
            },
    {
        match self {
            PopupState::DeviceList(state) => Some(state),
            PopupState::PlaylistList(state) => Some(state),
            PopupState::ArtistList(_, state) => Some(state),
            PopupState::ThemeList(_, state) => Some(state),
            _ => None,
        }
    }

    /// Returns the selected position in the current list popup.
    pub fn list_selected(&self) -> (id: Option<usize>)
        ensures
            id == self@.selected(),
    {
        match self.get_list_state() {
            None => None,
            Some(state) => state.selected(),
        }
    }

    /// Selects a position in the current list popup; a popup without a list
    /// stays as it is.
    pub fn list_select(&mut self, id: Option<usize>)
        ensures
            final(self)@ == old(self)@.select(id),
            old(self)@.cursor() is None ==> *final(self) == *old(self),
    {
        match self.get_list_state_mut() {
            None => {},
            Some(state) => state.select(id),
        }
    }

    /// Gets the artist under the cursor of an artist list. There is none in
    /// any other popup, where nothing is selected, and where the selected
    /// position lies beyond the list, as every position does in an empty
    /// list.
    pub fn selected_artist(&self) -> (artist: Option<&Artist>)
        ensures
            match artist {
                Some(found) => self@.selected_artist() == Some(*found),
                None => self@.selected_artist() is None,
            },
    {
        match self {
            PopupState::ArtistList(artists, state) => match state.selected() {
                Some(id) => if id < artists.len() {
                    Some(&artists[id])
                } else {
                    None
                },
                None => None,
            },
            _ => None,
        }
    }

    /// Gets the theme under the cursor of a theme list. There is none in
    /// any other popup, where nothing is selected, and where the selected
    /// position lies beyond the list, as every position does in an empty
    /// list.
    pub fn selected_theme(&self) -> (theme: Option<&Theme>)
        ensures
            match theme {
                Some(found) => self@.selected_theme() == Some(*found),
                None => self@.selected_theme() is None,
            },
    {
        match self {
            PopupState::ThemeList(themes, state) => match state.selected() {
                Some(id) => if id < themes.len() {
                    Some(&themes[id])
                } else {
                    None
                },
                None => None,
            },
            _ => None,
        }
    }
}

/// A popup with a list gives back the position it was last told to select,
/// a present one and an absent one alike.
pub proof fn lemma_popup_select_then_selected(popup: PopupView, id: Option<usize>)
    requires
        popup.cursor() is Some,
    ensures
        popup.select(id).selected() == id,
{
}

/// A popup without a list has nothing selected, and a selection command
/// leaves it as it is. The command help, the search popup and the absence
/// of a popup are the popups without a list.
pub proof fn lemma_popup_without_list(popup: PopupView, id: Option<usize>)
    requires
        popup.cursor() is None,
    ensures
        popup.selected() is None,
        popup.select(id) == popup,
        popup is CommandHelp || popup is ContextSearch || popup is Closed,
{
}

/// In an empty list no item is under the cursor, whatever position is
/// selected.
pub proof fn lemma_empty_list_has_no_selected_item(popup: PopupView, id: Option<usize>)
    requires
        popup is ArtistList ==> popup->artists.len() == 0,
        popup is ThemeList ==> popup->themes.len() == 0,
    ensures
        popup.select(id).selected_artist() is None,
        popup.select(id).selected_theme() is None,
{
}

/// A selection command changes the cursor of a popup and nothing else: the
/// kind of popup and the items it shows stay.
pub proof fn lemma_popup_select_keeps_items(popup: PopupView, id: Option<usize>)
    ensures
        popup is ArtistList ==> popup.select(id) is ArtistList && popup.select(id)->artists
            == popup->artists,
        popup is ThemeList ==> popup.select(id) is ThemeList && popup.select(id)->themes
            == popup->themes,
        popup is PlaylistList ==> popup.select(id) is PlaylistList,
        popup is DeviceList ==> popup.select(id) is DeviceList,
{
}

} // verus!
