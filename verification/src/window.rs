//! The window: the main content area and its cursors.

use crate::cursor::{list_cursor, table_cursor, Cursor};
use crate::focus::{ArtistFocusState, Focusable};
use tui::widgets::{ListState, TableState};
use vstd::prelude::*;

verus! {

/// What the main content area shows, with the cursors of that content.
///
/// A new window starts from fresh cursors: nothing is carried over from the
/// window it replaces.
#[derive(Debug)]
pub enum WindowState {
    /// Nothing is shown yet.
    Unknown,
    /// The tracks of a playlist.
    Playlist(TableState),
    /// The tracks of an album.
    Album(TableState),
    /// An artist: top tracks, albums and related artists, and which of the
    /// three has the focus.
    Artist(TableState, ListState, ListState, ArtistFocusState),
}

/// The active cursor of a window, lent out for the renderer to drive: a
/// table's or a list's.
pub enum CursorHandle<'a> {
    /// The cursor of a table of tracks.
    Table(&'a mut TableState),
    /// The cursor of a list.
    List(&'a mut ListState),
}

/// A window as plain values: each cursor by what it holds.
pub enum WindowView {
    /// Nothing is shown yet.
    Unknown,
    /// The tracks of a playlist.
    Playlist(Cursor),
    /// The tracks of an album.
    Album(Cursor),
    /// An artist, with one cursor for each of its three parts.
    Artist { top_tracks: Cursor, albums: Cursor, related_artists: Cursor, focus: ArtistFocusState },
}

impl View for WindowState {
    type V = WindowView;

    open spec fn view(&self) -> WindowView {
        match *self {
            WindowState::Unknown => WindowView::Unknown,
            WindowState::Playlist(tracks) => WindowView::Playlist(table_cursor(tracks)),
            WindowState::Album(tracks) => WindowView::Album(table_cursor(tracks)),
            WindowState::Artist(top_tracks, albums, related_artists, focus) => WindowView::Artist {
                top_tracks: table_cursor(top_tracks),
                albums: list_cursor(albums),
                related_artists: list_cursor(related_artists),
                focus,
            },
        }
    }
}

impl WindowView {
    /// The cursor that selection commands reach: the only cursor of a
    /// playlist or an album, the focused one of an artist.
    pub open spec fn active_cursor(self) -> Option<Cursor> {
        match self {
            WindowView::Unknown => None,
            WindowView::Playlist(tracks) => Some(tracks),
            WindowView::Album(tracks) => Some(tracks),
            WindowView::Artist { top_tracks, albums, related_artists, focus } => Some(
                match focus {
                    ArtistFocusState::TopTracks => top_tracks,
                    ArtistFocusState::Albums => albums,
                    ArtistFocusState::RelatedArtists => related_artists,
                },
            ),
        }
    }

    /// Whether the active cursor is that of a table of tracks: so it is in
    /// a playlist, in an album, and in an artist window with the focus on
    /// the top tracks. In an artist window with the focus on the albums or
    /// on the related artists it is that of a list.
    pub open spec fn active_is_table(self) -> bool {
        match self {
            WindowView::Unknown => false,
            WindowView::Playlist(_) => true,
            WindowView::Album(_) => true,
            WindowView::Artist { focus, .. } => focus == ArtistFocusState::TopTracks,
        }
    }

    /// The window with `cursor` in place of the active cursor; a window
    /// without cursors is left as it is.
    pub open spec fn with_active_cursor(self, cursor: Cursor) -> WindowView {
        match self {
            WindowView::Unknown => WindowView::Unknown,
            WindowView::Playlist(_) => WindowView::Playlist(cursor),
            WindowView::Album(_) => WindowView::Album(cursor),
            WindowView::Artist { top_tracks, albums, related_artists, focus } => match focus {
                ArtistFocusState::TopTracks => WindowView::Artist {
                    top_tracks: cursor,
                    albums,
                    related_artists,
                    focus,
                },
                ArtistFocusState::Albums => WindowView::Artist {
                    top_tracks,
                    albums: cursor,
                    related_artists,
                    focus,
                },
                ArtistFocusState::RelatedArtists => WindowView::Artist {
                    top_tracks,
                    albums,
                    related_artists: cursor,
                    focus,
                },
            },
        }
    }

    /// The window with the focus on `focus`; a window that is no artist
    /// window has no focus and is left as it is.
    pub open spec fn focused_on(self, focus: ArtistFocusState) -> WindowView {
        match self {
            WindowView::Artist { top_tracks, albums, related_artists, .. } => WindowView::Artist {
                top_tracks,
                albums,
                related_artists,
                focus,
            },
            _ => self,
        }
    }

    /// The selected position of the active cursor.
    pub open spec fn selected(self) -> Option<usize> {
        match self.active_cursor() {
            Some(cursor) => cursor.selected,
            None => None,
        }
    }

    /// The window after a selection command.
    pub open spec fn select(self, id: Option<usize>) -> WindowView {
        match self.active_cursor() {
            Some(cursor) => self.with_active_cursor(cursor.select(id)),
            None => self,
        }
    }
}

impl WindowState {
    /// A window on the tracks of a playlist, with a fresh cursor.
    pub fn playlist() -> (window: WindowState)
        ensures
            window@ == WindowView::Playlist(Cursor::fresh()),
    {
        WindowState::Playlist(TableState::default())
    }

    /// A window on the tracks of an album, with a fresh cursor.
    pub fn album() -> (window: WindowState)
        ensures
            window@ == WindowView::Album(Cursor::fresh()),
    {
        WindowState::Album(TableState::default())
    }

    /// A window on an artist, with three fresh cursors and the focus on the
    /// top tracks.
    pub fn artist() -> (window: WindowState)
        ensures
            window@ == (WindowView::Artist {
                top_tracks: Cursor::fresh(),
                albums: Cursor::fresh(),
                related_artists: Cursor::fresh(),
                focus: ArtistFocusState::TopTracks,
            }),
    {
        WindowState::Artist(
            TableState::default(),
            ListState::default(),
            ListState::default(),
            ArtistFocusState::TopTracks,
        )
    }

    /// Gets the state of the active table or list, for the renderer to
    /// drive: the one that selection commands reach. It is the track table
    /// in a playlist, in an album and in an artist window with the focus on
    /// the top tracks, and a list in an artist window with the focus on the
    /// albums or on the related artists. A window without cursors has none.
    pub fn get_track_table_state(&mut self) -> (handle: Option<CursorHandle<'_>>)
        ensures
            match handle {
                Some(CursorHandle::Table(table)) => {
                    &&& old(self)@.active_is_table()
                    &&& old(self)@.active_cursor() == Some(table_cursor(*table))
                    &&& final(self)@ == old(self)@.with_active_cursor(table_cursor(*final(table)))
                },
                Some(CursorHandle::List(list)) => {
                    &&& !old(self)@.active_is_table()
                    &&& old(self)@.active_cursor() == Some(list_cursor(*list))
                    &&& final(self)@ == old(self)@.with_active_cursor(list_cursor(*final(list)))
                },
                None => old(self)@ is Unknown && *final(self) == *old(self),
            },
    {
        match self {
            WindowState::Unknown => None,
            WindowState::Playlist(state) => Some(CursorHandle::Table(state)),
            WindowState::Album(state) => Some(CursorHandle::Table(state)),
            WindowState::Artist(top_tracks, albums, related_artists, focus) => match focus {
                ArtistFocusState::TopTracks => Some(CursorHandle::Table(top_tracks)),
                ArtistFocusState::Albums => Some(CursorHandle::List(albums)),
                ArtistFocusState::RelatedArtists => Some(CursorHandle::List(related_artists)),
            },
        }
    }

    /// Selects a position in the active table or list; a window without
    /// cursors stays as it is.
    pub fn select(&mut self, id: Option<usize>)
        ensures
            final(self)@ == old(self)@.select(id),
    {
        match self {
            WindowState::Unknown => {},
            WindowState::Playlist(state) => state.select(id),
            WindowState::Album(state) => state.select(id),
            WindowState::Artist(top_tracks, albums, related_artists, focus) => match focus {
                ArtistFocusState::TopTracks => top_tracks.select(id),
                ArtistFocusState::Albums => albums.select(id),
                ArtistFocusState::RelatedArtists => related_artists.select(id),
            },
        }
    }

    /// Gets the selected position in the active table or list.
    pub fn selected(&self) -> (id: Option<usize>)
        ensures
            id == self@.selected(),
    {
        match self {
            WindowState::Unknown => None,
            WindowState::Playlist(state) => state.selected(),
            WindowState::Album(state) => state.selected(),
            WindowState::Artist(top_tracks, albums, related_artists, focus) => match focus {
                ArtistFocusState::TopTracks => top_tracks.selected(),
                ArtistFocusState::Albums => albums.selected(),
                ArtistFocusState::RelatedArtists => related_artists.selected(),
            },
        }
    }
}

impl Focusable for WindowState {
    /// An artist window with the focus one step forwards; any other window
    /// as it is.
    open spec fn next_focus(self) -> Self {
        match self {
            WindowState::Artist(top_tracks, albums, related_artists, focus) => WindowState::Artist(
                top_tracks,
                albums,
                related_artists,
                focus.next_focus(),
            ),
            _ => self,
        }
    }

    /// An artist window with the focus one step backwards; any other window
    /// as it is.
    open spec fn previous_focus(self) -> Self {
        match self {
            WindowState::Artist(top_tracks, albums, related_artists, focus) => WindowState::Artist(
                top_tracks,
                albums,
                related_artists,
                focus.previous_focus(),
            ),
            _ => self,
        }
    }

    fn next(&mut self) {
        if let WindowState::Artist(_, _, _, focus) = self {
            focus.next()
        };
    }

    fn previous(&mut self) {
        if let WindowState::Artist(_, _, _, focus) = self {
            focus.previous()
        };
    }

    proof fn lemma_steps_undo(self) {
    }
}

/// A window with a cursor gives back the position it was last told to
/// select, a present one and an absent one alike.
pub proof fn lemma_window_select_then_selected(window: WindowView, id: Option<usize>)
    requires
        window.active_cursor() is Some,
    ensures
        window.select(id).selected() == id,
{
}

/// A window without cursors has nothing selected, and a selection command
/// leaves it as it is.
pub proof fn lemma_window_without_cursor(window: WindowView, id: Option<usize>)
    requires
        window is Unknown,
    ensures
        window.selected() is None,
        window.select(id) == window,
{
}

/// The cursors of an artist window are independent: a selection command
/// leaves the focus where it is, and what is selected under any other focus
/// is the same before and after it.
pub proof fn lemma_artist_cursors_independent(
    window: WindowView,
    id: Option<usize>,
    other: ArtistFocusState,
)
    requires
        window is Artist,
        other != window->focus,
    ensures
        window.select(id) is Artist,
        window.select(id)->focus == window->focus,
        window.select(id).focused_on(other).active_cursor() == window.focused_on(
            other,
        ).active_cursor(),
        window.select(id).focused_on(other).selected() == window.focused_on(other).selected(),
{
}

/// Moving the focus of a window changes its focus and nothing else: the
/// window is, as plain values, the one it was with the focus one step on.
pub proof fn lemma_window_focus_moves(window: WindowState)
    ensures
        window.next_focus()@ == (match window@ {
            WindowView::Artist { focus, .. } => window@.focused_on(focus.next_focus()),
            _ => window@,
        }),
        window.previous_focus()@ == (match window@ {
            WindowView::Artist { focus, .. } => window@.focused_on(focus.previous_focus()),
            _ => window@,
        }),
        !(window is Artist) ==> window.next_focus() == window && window.previous_focus() == window,
{
}

/// The focus of a window turns as the ring does: a full turn in either
/// direction leads back to the start.
pub proof fn lemma_window_full_turn(window: WindowState)
    ensures
        window.next_focus().next_focus().next_focus() == window,
        window.previous_focus().previous_focus().previous_focus() == window,
{
}

} // verus!
