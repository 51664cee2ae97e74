//! Session state of the hosting interface: the page history and the path of
//! the folder being browsed.

use vstd::prelude::*;

use crate::navigation::NavigationHistory;

verus! {

/// What the interface keeps for the whole session, across pages.
pub struct AppState {
    pub navigation_history: NavigationHistory,
    pub current_path: Option<String>,
}

impl AppState {
    pub open spec fn wf(&self) -> bool {
        self.navigation_history.wf()
    }

    /// A session at the root page, with no folder open.
    pub fn new() -> (r: Self)
        ensures
            r.wf(),
            r.navigation_history@.len() == 1,
            r.navigation_history.root().page_name@ == Seq::<char>::empty(),
            r.navigation_history.root().page_id@ == Seq::<char>::empty(),
            r.current_path is None,
    {
        AppState { navigation_history: NavigationHistory::new(), current_path: None }
    }

    /// Starts the history over from the page given, which becomes its root.
    pub fn new_navigation_from(&mut self, page_name: &str, page_id: &str)
        ensures
            final(self).wf(),
            final(self).navigation_history@.len() == 1,
            final(self).navigation_history.root().page_name@ == page_name@,
            final(self).navigation_history.root().page_id@ == page_id@,
            final(self).current_path == old(self).current_path,
    {
        self.navigation_history = NavigationHistory::new_from(
            page_name.to_string(),
            page_id.to_string(),
        );
    }

    /// Records a visit to the page given.
    pub fn push_navigation(&mut self, page_name: &str, page_id: &str)
        requires
            old(self).wf(),
        ensures
            final(self).wf(),
            final(self).navigation_history@.len() == old(self).navigation_history@.len() + 1,
            final(self).navigation_history@.drop_last() == old(self).navigation_history@,
            final(self).navigation_history.top().page_name@ == page_name@,
            final(self).navigation_history.top().page_id@ == page_id@,
            final(self).navigation_history.root() == old(self).navigation_history.root(),
            final(self).current_path == old(self).current_path,
    {
        self.navigation_history.push(page_name.to_string(), page_id.to_string());
        assert(self.navigation_history@.drop_last() =~= old(self).navigation_history@);
    }

    /// Goes back one page and returns the page left, as (name, id); at the
    /// root, returns the root and stays there.
    pub fn pop_navigation(&mut self) -> (r: (String, String))
        requires
            old(self).wf(),
        ensures
            final(self).wf(),
            r == old(self).navigation_history.top().pair(),
            final(self).navigation_history.root() == old(self).navigation_history.root(),
            old(self).navigation_history@.len() > 1 ==> final(self).navigation_history@ == old(
                self,
            ).navigation_history@.drop_last(),
            old(self).navigation_history@.len() == 1 ==> final(self).navigation_history@ == old(
                self,
            ).navigation_history@,
            final(self).current_path == old(self).current_path,
    {
        self.navigation_history.pop()
    }

    /// The page shown, as (name, id).
    pub fn current_page(&self) -> (r: (String, String))
        requires
            self.wf(),
        ensures
            r == self.navigation_history.top().pair(),
    {
        self.navigation_history.current()
    }

    /// Goes back to the root page.
    pub fn reset_navigation(&mut self)
        requires
            old(self).wf(),
        ensures
            final(self).wf(),
            final(self).navigation_history@ == seq![old(self).navigation_history.root()],
            final(self).current_path == old(self).current_path,
    {
        self.navigation_history.reset();
    }

    /// The number of pages in the history, the root included.
    pub fn navigation_stack_len(&self) -> (r: usize)
        ensures
            r == self.navigation_history@.len(),
    {
        self.navigation_history.len()
    }

    /// A copy of the page history.
    pub fn get_navigation_history(&self) -> (r: NavigationHistory)
        ensures
            r@ == self.navigation_history@,
    {
        self.navigation_history.clone()
    }

    /// The folder being browsed, if any.
    pub fn current_path(&self) -> (r: Option<String>)
        ensures
            r == self.current_path,
    {
        match &self.current_path {
            Some(p) => Some(p.clone()),
            None => None,
        }
    }

    /// Opens the folder at `path`.
    pub fn set_current_path(&mut self, path: &str)
        ensures
            final(self).current_path matches Some(p) && p@ == path@,
            final(self).navigation_history == old(self).navigation_history,
    {
        self.current_path = Some(path.to_string());
    }
}

} // verus!
