use ui_state::page::PageState;
use ui_state::popup::PopupState;
use ui_state::state::UIState;
use ui_state::window::WindowState;

#[test]
fn default_state_is_as_documented() {
    let state = UIState::default();
    assert!(state.is_running);
    assert_eq!(state.theme.name, "default");
    assert!(state.input_key_sequence.keys.is_empty());
    assert!(matches!(state.page, PageState::Default));
    assert_eq!(state.history.len(), 1);
    assert!(matches!(state.history[0], PageState::Default));
    assert!(matches!(state.popup, PopupState::Closed));
    assert!(matches!(state.window, WindowState::Unknown));
    assert_eq!(state.progress_bar_rect.x, 0);
    assert_eq!(state.progress_bar_rect.y, 0);
    assert_eq!(state.progress_bar_rect.width, 0);
    assert_eq!(state.progress_bar_rect.height, 0);
}

#[test]
fn push_sets_the_page_and_grows_the_history() {
    let mut state = UIState::default();
    state.push(PageState::Browse("x".to_string()));
    assert!(matches!(&state.page, PageState::Browse(id) if id == "x"));
    assert_eq!(state.history.len(), 2);
    assert!(matches!(state.history[0], PageState::Default));
    assert!(matches!(&state.history[1], PageState::Browse(id) if id == "x"));
}

#[test]
fn push_then_pop_restores_the_page() {
    let mut state = UIState::default();
    let before = state.history.len();
    state.push(PageState::Browse("x".to_string()));
    state.pop();
    assert!(matches!(state.page, PageState::Default));
    assert_eq!(state.history.len(), before);
    assert!(matches!(state.history[0], PageState::Default));
}

#[test]
fn push_then_pop_restores_a_browse_page() {
    let mut state = UIState::default();
    state.push(PageState::Browse("first".to_string()));
    let before = state.history.len();
    state.push(PageState::Browse("second".to_string()));
    state.pop();
    assert!(matches!(&state.page, PageState::Browse(id) if id == "first"));
    assert_eq!(state.history.len(), before);
}

#[test]
fn pop_on_fresh_state_changes_nothing() {
    let mut state = UIState::default();
    state.pop();
    assert!(matches!(state.page, PageState::Default));
    assert_eq!(state.history.len(), 1);
    assert!(matches!(state.history[0], PageState::Default));
    state.pop();
    state.pop();
    assert_eq!(state.history.len(), 1);
}

#[test]
fn pop_walks_back_to_the_default_page_and_stops() {
    let mut state = UIState::default();
    state.push(PageState::Browse("a".to_string()));
    state.push(PageState::Browse("b".to_string()));
    state.push(PageState::Default);
    assert_eq!(state.history.len(), 4);
    state.pop();
    assert!(matches!(&state.page, PageState::Browse(id) if id == "b"));
    state.pop();
    assert!(matches!(&state.page, PageState::Browse(id) if id == "a"));
    state.pop();
    assert!(matches!(state.page, PageState::Default));
    assert_eq!(state.history.len(), 1);
    state.pop();
    assert!(matches!(state.page, PageState::Default));
    assert_eq!(state.history.len(), 1);
}

#[test]
fn navigation_leaves_the_rest_alone() {
    let mut state = UIState::default();
    state.is_running = false;
    state.popup = PopupState::ContextSearch("road".to_string());
    state.push(PageState::Browse("x".to_string()));
    assert!(!state.is_running);
    assert!(matches!(&state.popup, PopupState::ContextSearch(query) if query == "road"));
    assert!(matches!(state.window, WindowState::Unknown));
    state.pop();
    assert!(!state.is_running);
    assert!(matches!(&state.popup, PopupState::ContextSearch(query) if query == "road"));
}

#[test]
fn pop_on_an_emptied_history_changes_nothing() {
    let mut state = UIState::default();
    state.history.clear();
    state.page = PageState::Browse("x".to_string());
    state.pop();
    assert!(state.history.is_empty());
    assert!(matches!(&state.page, PageState::Browse(id) if id == "x"));
}

#[test]
fn page_clone_is_equal() {
    let page = PageState::Browse("x".to_string());
    assert!(matches!(page.clone(), PageState::Browse(id) if id == "x"));
    assert!(matches!(PageState::Default.clone(), PageState::Default));
}
