//! A stack of visited pages that never runs empty: its bottom frame, the root,
//! stays in place through every push and pop.

use vstd::prelude::*;

verus! {

/// One visited page: its name and the identifier of what it shows.
pub struct NavigationFrame {
    pub page_name: String,
    pub page_id: String,
}

impl Clone for NavigationFrame {
    fn clone(&self) -> (r: Self)
        ensures
            r == *self,
    {
        NavigationFrame { page_name: self.page_name.clone(), page_id: self.page_id.clone() }
    }
}

impl NavigationFrame {
    /// The frame as a pair of (name, id).
    pub open spec fn pair(self) -> (String, String) {
        (self.page_name, self.page_id)
    }
}

/// The frames from the root (index 0) to the page on top.
pub struct NavigationHistory {
    frames: Vec<NavigationFrame>,
}

impl View for NavigationHistory {
    type V = Seq<NavigationFrame>;

    closed spec fn view(&self) -> Seq<NavigationFrame> {
        self.frames@
    }
}

impl NavigationHistory {
    /// The history always holds its root frame.
    pub open spec fn wf(&self) -> bool {
        self@.len() >= 1
    }

    /// The bottom frame, which no pop removes.
    pub open spec fn root(&self) -> NavigationFrame {
        self@[0]
    }

    /// The frame on top.
    pub open spec fn top(&self) -> NavigationFrame {
        self@.last()
    }

    /// A history holding only a root frame with an empty name and id.
    pub fn new() -> (r: Self)
        ensures
            r.wf(),
            r@.len() == 1,
            r.root().page_name@ == Seq::<char>::empty(),
            r.root().page_id@ == Seq::<char>::empty(),
    {
        let mut frames: Vec<NavigationFrame> = Vec::new();
        frames.push(NavigationFrame { page_name: String::new(), page_id: String::new() });
        NavigationHistory { frames }
    }

    /// A history whose only frame, its root, is the page given.
    pub fn new_from(page_name: String, page_id: String) -> (r: Self)
        ensures
            r.wf(),
            r@ == seq![NavigationFrame { page_name, page_id }],
    {
        let mut frames: Vec<NavigationFrame> = Vec::new();
        frames.push(NavigationFrame { page_name, page_id });
        NavigationHistory { frames }
    }

    /// Puts a page on top.
    pub fn push(&mut self, page_name: String, page_id: String)
        requires
            old(self).wf(),
        ensures
            final(self).wf(),
            final(self)@ == old(self)@.push(NavigationFrame { page_name, page_id }),
            final(self).root() == old(self).root(),
    {
        self.frames.push(NavigationFrame { page_name, page_id });
    }

    /// Removes the page on top and returns it as (name, id). The root frame is
    /// never removed: on a history of one frame this returns the root and
    /// changes nothing.
    pub fn pop(&mut self) -> (r: (String, String))
        requires
            old(self).wf(),
        ensures
            final(self).wf(),
            r == old(self).top().pair(),
            final(self).root() == old(self).root(),
            old(self)@.len() > 1 ==> final(self)@ == old(self)@.drop_last(),
            old(self)@.len() == 1 ==> final(self)@ == old(self)@,
    {
        if self.frames.len() > 1 {
            let frame = self.frames.pop().unwrap();
            (frame.page_name, frame.page_id)
        } else {
            let frame = self.frames[0].clone();
            (frame.page_name, frame.page_id)
        }
    }

    /// The page on top as (name, id), without change.
    pub fn current(&self) -> (r: (String, String))
        requires
            self.wf(),
        ensures
            r == self.top().pair(),
    {
        let frame = self.frames[self.frames.len() - 1].clone();
        (frame.page_name, frame.page_id)
    }

    /// Drops every frame above the root.
    pub fn reset(&mut self)
        requires
            old(self).wf(),
        ensures
            final(self).wf(),
            final(self)@ == seq![old(self).root()],
            final(self).root() == old(self).root(),
    {
        self.frames.truncate(1);
        assert(self.frames@ =~= seq![old(self).root()]);
    }

    /// The number of frames, the root included.
    pub fn len(&self) -> (r: usize)
        ensures
            r == self@.len(),
    {
        self.frames.len()
    }
}

impl Clone for NavigationHistory {
    fn clone(&self) -> (r: Self)
        ensures
            r@ == self@,
    {
        let mut frames: Vec<NavigationFrame> = Vec::new();
        let mut i: usize = 0;
        while i < self.frames.len()
            invariant
                i <= self.frames@.len(),
                frames@ == self.frames@.subrange(0, i as int),
            decreases self.frames@.len() - i,
        {
            frames.push(self.frames[i].clone());
            i += 1;
            assert(frames@ =~= self.frames@.subrange(0, i as int));
        }
        assert(frames@ =~= self.frames@);
        NavigationHistory { frames }
    }
}

} // verus!
