//! The state of the whole interface.

use crate::page::{page_views, Navigation, PageState, PageView};
use crate::popup::{PopupState, PopupView};
use crate::records::{Key, KeySequence, Theme};
use crate::window::{WindowState, WindowView};
use tui::layout::Rect;
use vstd::prelude::*;

verus! {

/// `tui::layout::Rect`: a rectangle of terminal cells, given by the column
/// and row of its upper left corner, its width and its height.
#[verifier::external_type_specification]
pub struct ExRect(tui::layout::Rect);

/// `Rect::default`, which `tui` derives: every field is zero.
pub assume_specification[ <Rect as Default>::default ]() -> (rect: Rect)
    ensures
        rect.x == 0,
        rect.y == 0,
        rect.width == 0,
        rect.height == 0,
;

/// Exclusive access to a state that is shared behind a lock: held for the
/// length of one read or one write, and given up when it goes out of scope.
pub type UIStateGuard<'a> = std::sync::MutexGuard<'a, UIState>;

/// Everything that the renderer reads and the input handler changes.
#[derive(Debug)]
pub struct UIState {
    /// Whether the application goes on running.
    pub is_running: bool,
    /// The theme in use.
    pub theme: Theme,
    /// The keys pressed so far that do not yet make up a command.
    pub input_key_sequence: KeySequence,
    /// The page on screen.
    pub page: PageState,
    /// The pages visited, oldest first.
    pub history: Vec<PageState>,
    /// The overlay above the window.
    pub popup: PopupState,
    /// The main content area.
    pub window: WindowState,
    /// Where the progress bar was last drawn.
    pub progress_bar_rect: Rect,
}

impl UIState {
    /// The page on screen and the history, as plain values.
    pub open spec fn navigation(self) -> Navigation {
        Navigation { page: self.page@, history: page_views(self.history@) }
    }

    /// The history is never empty, it starts at the default page, and its
    /// last entry is the page on screen.
    pub open spec fn wf(self) -> bool {
        self.navigation().wf()
    }

    /// Whether `self` differs from `other` in nothing but the page on
    /// screen and the history.
    pub open spec fn same_but_navigation(self, other: UIState) -> bool {
        &&& self.is_running == other.is_running
        &&& self.theme == other.theme
        &&& self.input_key_sequence == other.input_key_sequence
        &&& self.popup == other.popup
        &&& self.window == other.window
        &&& self.progress_bar_rect == other.progress_bar_rect
    }

    /// Goes to `page`: it becomes the page on screen and the newest entry
    /// of the history.
    pub fn push(&mut self, page: PageState)
        ensures
            final(self).navigation() == old(self).navigation().push(page@),
            final(self).same_but_navigation(*old(self)),
            old(self).wf() ==> final(self).wf(),
    {
        self.history.push(page.clone());
        self.page = page;
        proof {
            assert(page_views(self.history@) =~= page_views(old(self).history@).push(page@));
        }
    }

    /// Goes back: the newest entry leaves the history and the entry below
    /// it becomes the page on screen. With a single entry left nothing
    /// changes.
    pub fn pop(&mut self)
        ensures
            final(self).navigation() == old(self).navigation().pop(),
            final(self).same_but_navigation(*old(self)),
            old(self).history@.len() <= 1 ==> *final(self) == *old(self),
            old(self).wf() ==> final(self).wf(),
    {
        if self.history.len() > 1 {
            self.history.pop();
            let top: usize = self.history.len() - 1;
            self.page = self.history[top].clone();
            proof {
                assert(page_views(self.history@) =~= page_views(old(self).history@).drop_last());
            }
        }
    }
}

impl Default for UIState {
    /// The state at startup: running, with the default theme, no pending
    /// keys, the default page as the only entry of the history, no popup
    /// and an empty window.
    fn default() -> (state: UIState)
        ensures
            state.is_running,
            state.theme.name@ == Theme::default_name(),
            state.input_key_sequence.keys@ == Seq::<Key>::empty(),
            state.navigation() == Navigation::start(),
            state.wf(),
            state.popup@ == PopupView::Closed,
            state.window@ == WindowView::Unknown,
            state.progress_bar_rect.x == 0,
            state.progress_bar_rect.y == 0,
            state.progress_bar_rect.width == 0,
            state.progress_bar_rect.height == 0,
    {
        let state = UIState {
            is_running: true,
            theme: Theme::default(),
            input_key_sequence: KeySequence { keys: vec![] },
            page: PageState::Default,
            history: vec![PageState::Default],
            popup: PopupState::Closed,
            window: WindowState::Unknown,
            progress_bar_rect: Rect::default(),
        };
        proof {
            assert(page_views(state.history@) =~= seq![PageView::Default]);
        }
        state
    }
}

} // verus!
