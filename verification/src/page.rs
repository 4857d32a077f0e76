//! Pages and the history of pages visited.

use vstd::prelude::*;

verus! {

/// Where in the application the user is.
#[derive(Debug)]
pub enum PageState {
    /// The page that the application starts on.
    Default,
    /// A browse page of the context with the given id.
    Browse(String),
}

/// A page as plain values: the context id by its characters.
pub enum PageView {
    /// The page that the application starts on.
    Default,
    /// A browse page of the context with the given id.
    Browse(Seq<char>),
}

impl View for PageState {
    type V = PageView;

    open spec fn view(&self) -> PageView {
        match *self {
            PageState::Default => PageView::Default,
            PageState::Browse(context_id) => PageView::Browse(context_id@),
        }
    }
}

impl Clone for PageState {
    fn clone(&self) -> (page: PageState)
        ensures
            page == *self,
    {
        match self {
            PageState::Default => PageState::Default,
            PageState::Browse(context_id) => PageState::Browse(context_id.clone()),
        }
    }
}

/// The pages of a history, each as plain values.
pub open spec fn page_views(history: Seq<PageState>) -> Seq<PageView> {
    Seq::new(history.len(), |i: int| history[i]@)
}

/// The current page together with the back-stack that leads to it.
#[verifier::ext_equal]
pub struct Navigation {
    /// The page on screen.
    pub page: PageView,
    /// The pages visited, oldest first.
    pub history: Seq<PageView>,
}

impl Navigation {
    /// The history is never empty, it starts at the default page, and its
    /// last entry is the page on screen.
    pub open spec fn wf(self) -> bool {
        &&& self.history.len() > 0
        &&& self.history[0] == PageView::Default
        &&& self.history.last() == self.page
    }

    /// Where a fresh state stands.
    pub open spec fn start() -> Navigation {
        Navigation { page: PageView::Default, history: seq![PageView::Default] }
    }

    /// Going to `page`: it becomes the page on screen and the newest entry
    /// of the history.
    pub open spec fn push(self, page: PageView) -> Navigation {
        Navigation { page, history: self.history.push(page) }
    }

    /// Going back: the newest entry leaves the history and the entry below
    /// it becomes the page on screen. With a single entry left, or none,
    /// nothing changes.
    pub open spec fn pop(self) -> Navigation {
        if self.history.len() > 1 {
            Navigation { page: self.history[self.history.len() - 2], history: self.history.drop_last() }
        } else {
            self
        }
    }
}

/// Going to a page keeps a well-formed navigation well-formed.
pub proof fn lemma_push_preserves_wf(nav: Navigation, page: PageView)
    requires
        nav.wf(),
    ensures
        nav.push(page).wf(),
{
}

/// Going back keeps a well-formed navigation well-formed.
pub proof fn lemma_pop_preserves_wf(nav: Navigation)
    requires
        nav.wf(),
    ensures
        nav.pop().wf(),
{
}

/// Going to a page and then back restores the page that was on screen and
/// the whole history, so its length too.
pub proof fn lemma_push_then_pop(nav: Navigation, page: PageView)
    requires
        nav.wf(),
    ensures
        nav.push(page).pop() == nav,
{
    assert(nav.push(page).pop().history =~= nav.history);
}

/// Going back from where a fresh state stands changes nothing.
pub proof fn lemma_pop_at_start()
    ensures
        Navigation::start().pop() == Navigation::start(),
        Navigation::start().wf(),
{
}

} // verus!
