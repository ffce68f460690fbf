//! The cursor that pages through the transaction feed, newest rows first.
//!
//! The cursor decides; the caller fetches. Every transition returns what the
//! caller has to do next: fetch the page at the new offset, or show what it
//! already holds.

use vstd::prelude::*;

verus! {

/// Where the view stands in the feed: `offset` rows are skipped from the most
/// recent end, and a page holds up to `limit` rows.
#[derive(Debug, Clone, Copy, PartialEq, Eq, Structural)]
pub struct PagerState {
    pub offset: usize,
    pub limit: usize,
}

/// What the caller does after a transition.
#[derive(Debug, Clone, Copy, PartialEq, Eq, Structural)]
pub enum PagerAction {
    /// Fetch the page that starts at `offset` and hand it to
    /// [`PagerState::page_fetched`].
    NeedsRefetch { offset: usize },
    /// Show the current page; nothing is fetched.
    Stable,
}

impl PagerState {
    /// The cursor is well formed: a page holds at least one row.
    pub open spec fn wf(&self) -> bool {
        self.limit > 0
    }

    /// The state one page further towards the newest rows: the offset less
    /// one page, and never below zero.
    pub open spec fn stepped_forward(self) -> PagerState {
        PagerState {
            offset: if self.offset >= self.limit {
                (self.offset - self.limit) as usize
            } else {
                0
            },
            limit: self.limit,
        }
    }

    /// Whether a step back moves the cursor: only after a page was shown, and
    /// only if that page was full, so that older rows may exist.
    pub open spec fn can_step_back(self, shown_rows: Option<usize>) -> bool {
        shown_rows == Some(self.limit)
    }

    /// The state one page further towards the oldest rows, if the step moves
    /// the cursor at all.
    pub open spec fn stepped_back(self, shown_rows: Option<usize>) -> PagerState {
        if self.can_step_back(shown_rows) {
            PagerState { offset: (self.offset + self.limit) as usize, limit: self.limit }
        } else {
            self
        }
    }

    /// The cursor at the most recent end of the feed.
    pub fn new(limit: usize) -> (result: PagerState)
        requires
            limit > 0,
        ensures
            result == (PagerState { offset: 0, limit }),
            result.wf(),
    {
        PagerState { offset: 0, limit }
    }

    /// Steps back in time, towards older rows. `shown_rows` is the number of
    /// rows of the page on display, or `None` while no page has arrived.
    ///
    /// After a full page the offset grows by one page and that page is to be
    /// fetched. After a partial page the view is at the oldest rows already:
    /// the cursor stays and nothing is fetched.
    pub fn step_back(&mut self, shown_rows: Option<usize>) -> (action: PagerAction)
        requires
            old(self).wf(),
            old(self).can_step_back(shown_rows) ==> old(self).offset + old(self).limit
                <= usize::MAX,
        ensures
            *final(self) == old(self).stepped_back(shown_rows),
            final(self).wf(),
            old(self).can_step_back(shown_rows) ==> action == (PagerAction::NeedsRefetch {
                offset: (old(self).offset + old(self).limit) as usize,
            }),
            !old(self).can_step_back(shown_rows) ==> action == PagerAction::Stable,
    {
        match shown_rows {
            Some(rows) => {
                if rows == self.limit {
                    self.offset = self.offset + self.limit;
                    PagerAction::NeedsRefetch { offset: self.offset }
                } else {
                    PagerAction::Stable
                }
            },
            None => PagerAction::Stable,
        }
    }

    /// Steps forward in time, towards newer rows: the offset shrinks by one
    /// page, stopping at zero, and the page there is always to be fetched.
    pub fn step_forward(&mut self) -> (action: PagerAction)
        requires
            old(self).wf(),
        ensures
            *final(self) == old(self).stepped_forward(),
            final(self).wf(),
            final(self).offset <= old(self).offset,
            action == (PagerAction::NeedsRefetch { offset: final(self).offset }),
    {
        self.offset = self.offset.saturating_sub(self.limit);
        PagerAction::NeedsRefetch { offset: self.offset }
    }

    /// Takes in the page that a fetch returned, by its number of rows.
    ///
    /// An empty page means that the offset lies past the oldest row: the
    /// cursor corrects itself with one step forward and asks for that page.
    /// Any other page is shown as it is.
    pub fn page_fetched(&mut self, rows: usize) -> (action: PagerAction)
        requires
            old(self).wf(),
        ensures
            final(self).wf(),
            rows == 0 ==> *final(self) == old(self).stepped_forward() && action == (
            PagerAction::NeedsRefetch { offset: final(self).offset }),
            rows != 0 ==> *final(self) == *old(self) && action == PagerAction::Stable,
    {
        if rows == 0 {
            self.step_forward()
        } else {
            PagerAction::Stable
        }
    }
}

/// A step back after a full page, then a step forward, brings the cursor back
/// to where it was.
pub proof fn lemma_forward_undoes_back(state: PagerState)
    requires
        state.wf(),
        state.offset + state.limit <= usize::MAX,
    ensures
        state.stepped_back(Some(state.limit)).stepped_forward() == state,
{
}

} // verus!
