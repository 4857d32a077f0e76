use tui::widgets::{ListState, TableState};
use ui_state::focus::{ArtistFocusState, Focusable};
use ui_state::popup::PopupState;
use ui_state::records::{Artist, Theme};
use ui_state::window::{CursorHandle, WindowState};

fn windows_with_cursor() -> Vec<WindowState> {
    vec![
        WindowState::Playlist(TableState::default()),
        WindowState::Album(TableState::default()),
        WindowState::Artist(
            TableState::default(),
            ListState::default(),
            ListState::default(),
            ArtistFocusState::TopTracks,
        ),
        WindowState::Artist(
            TableState::default(),
            ListState::default(),
            ListState::default(),
            ArtistFocusState::Albums,
        ),
        WindowState::Artist(
            TableState::default(),
            ListState::default(),
            ListState::default(),
            ArtistFocusState::RelatedArtists,
        ),
    ]
}

fn popups_with_list() -> Vec<PopupState> {
    vec![
        PopupState::PlaylistList(ListState::default()),
        PopupState::DeviceList(ListState::default()),
        PopupState::ArtistList(
            vec![Artist { id: "a1".to_string(), name: "Daft Punk".to_string() }],
            ListState::default(),
        ),
        PopupState::ThemeList(
            vec![Theme { name: "dracula".to_string() }, Theme { name: "nord".to_string() }],
            ListState::default(),
        ),
    ]
}

fn popups_without_list() -> Vec<PopupState> {
    vec![
        PopupState::Closed,
        PopupState::CommandHelp,
        PopupState::ContextSearch("punk".to_string()),
    ]
}

#[test]
fn window_select_round_trip() {
    for mut window in windows_with_cursor() {
        assert_eq!(window.selected(), None);
        window.select(Some(3));
        assert_eq!(window.selected(), Some(3));
        window.select(None);
        assert_eq!(window.selected(), None);
        window.select(Some(0));
        assert_eq!(window.selected(), Some(0));
        window.select(Some(usize::MAX));
        assert_eq!(window.selected(), Some(usize::MAX));
    }
}

#[test]
fn popup_select_round_trip() {
    for mut popup in popups_with_list() {
        assert_eq!(popup.list_selected(), None);
        popup.list_select(Some(3));
        assert_eq!(popup.list_selected(), Some(3));
        popup.list_select(None);
        assert_eq!(popup.list_selected(), None);
    }
}

#[test]
fn unknown_window_has_no_selection() {
    let mut window = WindowState::Unknown;
    assert_eq!(window.selected(), None);
    window.select(Some(3));
    assert_eq!(window.selected(), None);
    assert!(matches!(window, WindowState::Unknown));
    assert!(window.get_track_table_state().is_none());
}

#[test]
fn popup_without_list_ignores_selection() {
    for mut popup in popups_without_list() {
        assert_eq!(popup.list_selected(), None);
        popup.list_select(Some(3));
        assert_eq!(popup.list_selected(), None);
        assert!(popup.get_list_state().is_none());
        assert!(popup.get_list_state_mut().is_none());
    }
}

#[test]
fn command_help_is_left_as_it_is() {
    let mut popup = PopupState::CommandHelp;
    popup.list_select(Some(3));
    assert!(matches!(popup, PopupState::CommandHelp));
    assert_eq!(popup.list_selected(), None);
}

#[test]
fn search_popup_keeps_its_query() {
    let mut popup = PopupState::ContextSearch("abbey road".to_string());
    popup.list_select(Some(1));
    match popup {
        PopupState::ContextSearch(query) => assert_eq!(query, "abbey road"),
        _ => panic!("the popup changed its kind"),
    }
}

#[test]
fn popup_select_keeps_the_items() {
    let mut popup = PopupState::ArtistList(
        vec![
            Artist { id: "a1".to_string(), name: "Daft Punk".to_string() },
            Artist { id: "a2".to_string(), name: "Gorillaz".to_string() },
        ],
        ListState::default(),
    );
    popup.list_select(Some(1));
    match &popup {
        PopupState::ArtistList(artists, state) => {
            assert_eq!(artists.len(), 2);
            assert_eq!(artists[0].name, "Daft Punk");
            assert_eq!(artists[1].id, "a2");
            assert_eq!(state.selected(), Some(1));
        }
        _ => panic!("the popup changed its kind"),
    }
}

#[test]
fn popup_list_state_is_the_popup_s_own() {
    for mut popup in popups_with_list() {
        popup.list_select(Some(2));
        assert_eq!(popup.get_list_state().and_then(|state| state.selected()), Some(2));
        match popup.get_list_state_mut() {
            Some(state) => state.select(Some(9)),
            None => panic!("a list popup has a list state"),
        }
        assert_eq!(popup.list_selected(), Some(9));
    }
}

#[test]
fn artist_cursors_are_independent() {
    let mut window = WindowState::Artist(
        TableState::default(),
        ListState::default(),
        ListState::default(),
        ArtistFocusState::Albums,
    );
    window.select(Some(2));
    assert_eq!(window.selected(), Some(2));
    // from the albums round to the top tracks
    window.previous();
    assert_eq!(window.selected(), None);
    window.select(Some(5));
    window.next();
    assert_eq!(window.selected(), Some(2));
    window.next();
    assert_eq!(window.selected(), None);
    match &window {
        WindowState::Artist(top_tracks, albums, related_artists, focus) => {
            assert_eq!(top_tracks.selected(), Some(5));
            assert_eq!(albums.selected(), Some(2));
            assert_eq!(related_artists.selected(), None);
            assert_eq!(*focus, ArtistFocusState::RelatedArtists);
        }
        _ => panic!("the window changed its kind"),
    }
}

#[test]
fn handle_of_an_artist_window_is_the_focused_cursor() {
    let mut window = WindowState::Artist(
        TableState::default(),
        ListState::default(),
        ListState::default(),
        ArtistFocusState::Albums,
    );
    window.select(Some(2));
    match window.get_track_table_state() {
        Some(CursorHandle::List(list)) => {
            assert_eq!(list.selected(), Some(2));
            list.select(Some(8));
        }
        _ => panic!("the albums are a list"),
    }
    assert_eq!(window.selected(), Some(8));
    // the top tracks were not touched
    window.previous();
    assert_eq!(window.selected(), None);
    match window.get_track_table_state() {
        Some(CursorHandle::Table(table)) => assert_eq!(table.selected(), None),
        _ => panic!("the top tracks are a table"),
    }
    // nor were the related artists
    window.previous();
    match window.get_track_table_state() {
        Some(CursorHandle::List(list)) => assert_eq!(list.selected(), None),
        _ => panic!("the related artists are a list"),
    }
}

#[test]
fn handle_of_playlist_and_album_is_the_track_table() {
    let mut playlist = WindowState::Playlist(TableState::default());
    playlist.select(Some(1));
    match playlist.get_track_table_state() {
        Some(CursorHandle::Table(table)) => assert_eq!(table.selected(), Some(1)),
        _ => panic!("a playlist is a table"),
    }
    let mut album = WindowState::Album(TableState::default());
    match album.get_track_table_state() {
        Some(CursorHandle::Table(table)) => table.select(Some(6)),
        _ => panic!("an album is a table"),
    }
    assert_eq!(album.selected(), Some(6));
}

#[test]
fn handle_follows_the_focus() {
    let mut window = WindowState::Artist(
        TableState::default(),
        ListState::default(),
        ListState::default(),
        ArtistFocusState::TopTracks,
    );
    match window.get_track_table_state() {
        Some(CursorHandle::Table(table)) => table.select(Some(1)),
        _ => panic!("the top tracks are a table"),
    }
    window.next();
    match window.get_track_table_state() {
        Some(CursorHandle::List(list)) => list.select(Some(2)),
        _ => panic!("the albums are a list"),
    }
    window.next();
    match window.get_track_table_state() {
        Some(CursorHandle::List(list)) => list.select(Some(3)),
        _ => panic!("the related artists are a list"),
    }
    assert_eq!(window.selected(), Some(3));
    window.next();
    assert_eq!(window.selected(), Some(1));
    window.next();
    assert_eq!(window.selected(), Some(2));

    let mut playlist = WindowState::Playlist(TableState::default());
    match playlist.get_track_table_state() {
        Some(CursorHandle::Table(table)) => table.select(Some(4)),
        _ => panic!("a playlist is a table"),
    }
    assert_eq!(playlist.selected(), Some(4));
}

#[test]
fn selected_item_of_an_artist_list() {
    let mut popup = PopupState::ArtistList(
        vec![
            Artist { id: "a1".to_string(), name: "Daft Punk".to_string() },
            Artist { id: "a2".to_string(), name: "Gorillaz".to_string() },
        ],
        ListState::default(),
    );
    assert!(popup.selected_artist().is_none());
    popup.list_select(Some(1));
    assert_eq!(popup.selected_artist().map(|artist| artist.name.as_str()), Some("Gorillaz"));
    popup.list_select(Some(0));
    assert_eq!(popup.selected_artist().map(|artist| artist.id.as_str()), Some("a1"));
    popup.list_select(Some(2));
    assert!(popup.selected_artist().is_none());
    assert!(popup.selected_theme().is_none());
}

#[test]
fn selected_item_of_a_theme_list() {
    let mut popup = PopupState::ThemeList(
        vec![Theme { name: "dracula".to_string() }, Theme { name: "nord".to_string() }],
        ListState::default(),
    );
    assert!(popup.selected_theme().is_none());
    popup.list_select(Some(1));
    assert_eq!(popup.selected_theme().map(|theme| theme.name.as_str()), Some("nord"));
    popup.list_select(Some(usize::MAX));
    assert!(popup.selected_theme().is_none());
    assert!(popup.selected_artist().is_none());
}

#[test]
fn empty_list_has_no_selected_item() {
    let mut artists = PopupState::ArtistList(vec![], ListState::default());
    artists.list_select(Some(0));
    assert_eq!(artists.list_selected(), Some(0));
    assert!(artists.selected_artist().is_none());
    let mut themes = PopupState::ThemeList(vec![], ListState::default());
    themes.list_select(Some(0));
    assert!(themes.selected_theme().is_none());
    let mut playlists = PopupState::PlaylistList(ListState::default());
    playlists.list_select(Some(0));
    assert!(playlists.selected_artist().is_none());
    assert!(playlists.selected_theme().is_none());
}

#[test]
fn fresh_windows_have_nothing_selected() {
    for mut window in [WindowState::playlist(), WindowState::album(), WindowState::artist()] {
        assert_eq!(window.selected(), None);
        window.select(Some(3));
        assert_eq!(window.selected(), Some(3));
    }
    assert!(matches!(WindowState::playlist(), WindowState::Playlist(_)));
    assert!(matches!(WindowState::album(), WindowState::Album(_)));
    match WindowState::artist() {
        WindowState::Artist(top_tracks, albums, related_artists, focus) => {
            assert_eq!(top_tracks.selected(), None);
            assert_eq!(albums.selected(), None);
            assert_eq!(related_artists.selected(), None);
            assert_eq!(focus, ArtistFocusState::TopTracks);
        }
        _ => panic!("not an artist window"),
    }
}

#[test]
fn fresh_popups_have_nothing_selected() {
    let artists = vec![Artist { id: "a1".to_string(), name: "Daft Punk".to_string() }];
    let themes = vec![Theme { name: "dracula".to_string() }, Theme { name: "nord".to_string() }];
    for mut popup in [
        PopupState::playlist_list(),
        PopupState::device_list(),
        PopupState::artist_list(artists),
        PopupState::theme_list(themes),
    ] {
        assert_eq!(popup.list_selected(), None);
        popup.list_select(Some(1));
        assert_eq!(popup.list_selected(), Some(1));
    }
    assert!(matches!(PopupState::playlist_list(), PopupState::PlaylistList(_)));
    assert!(matches!(PopupState::device_list(), PopupState::DeviceList(_)));
    match PopupState::artist_list(vec![Artist { id: "a2".to_string(), name: "Gorillaz".to_string() }]) {
        PopupState::ArtistList(artists, state) => {
            assert_eq!(artists.len(), 1);
            assert_eq!(artists[0].name, "Gorillaz");
            assert_eq!(state.selected(), None);
        }
        _ => panic!("not an artist list"),
    }
    match PopupState::theme_list(vec![Theme { name: "nord".to_string() }]) {
        PopupState::ThemeList(themes, state) => {
            assert_eq!(themes.len(), 1);
            assert_eq!(themes[0].name, "nord");
            assert_eq!(state.selected(), None);
        }
        _ => panic!("not a theme list"),
    }
}

#[test]
fn handle_is_a_table_or_a_list_by_the_focus() {
    assert!(matches!(WindowState::playlist().get_track_table_state(), Some(CursorHandle::Table(_))));
    assert!(matches!(WindowState::album().get_track_table_state(), Some(CursorHandle::Table(_))));
    let mut window = WindowState::artist();
    assert!(matches!(window.get_track_table_state(), Some(CursorHandle::Table(_))));
    window.next();
    assert!(matches!(window.get_track_table_state(), Some(CursorHandle::List(_))));
    window.next();
    assert!(matches!(window.get_track_table_state(), Some(CursorHandle::List(_))));
    window.next();
    assert!(matches!(window.get_track_table_state(), Some(CursorHandle::Table(_))));
}
