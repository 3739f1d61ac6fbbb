//! The landing page: a counter, with no operation of its own.

use vstd::prelude::*;

verus! {

/// The messages of the landing page.
#[derive(Clone, Copy, Debug, PartialEq, Eq)]
pub enum Msg {
    /// Count one up.
    Increment,
}

/// Mathematical value of a [`Home`] page.
pub struct HomeModel {
    pub value: int,
}

impl HomeModel {
    /// The page as it is mounted.
    pub open spec fn initial() -> HomeModel {
        HomeModel { value: 0 }
    }

    /// The transition of the page: the next state, and whether to paint.
    pub open spec fn step(self, msg: Msg) -> (HomeModel, bool) {
        match msg {
            Msg::Increment => (HomeModel { value: self.value + 1 }, true),
        }
    }

    /// Whether the counter of a machine has room for handling `msg`.
    pub open spec fn in_range(self, msg: Msg) -> bool {
        self.value < i64::MAX
    }

    /// The transition as a machine carries it out: a message that would
    /// take the counter past its last value is ignored.
    pub open spec fn bounded_step(self, msg: Msg) -> (HomeModel, bool) {
        if self.in_range(msg) {
            self.step(msg)
        } else {
            (self, false)
        }
    }

    /// The state after handling `count` messages.
    pub open spec fn run(self, count: nat) -> HomeModel
        decreases count,
    {
        if count == 0 {
            self
        } else {
            self.run((count - 1) as nat).step(Msg::Increment).0
        }
    }
}

/// What the page shows: the count.
#[derive(Clone, Copy, Debug, PartialEq, Eq)]
pub struct Screen {
    pub value: i64,
}

/// The landing page.
#[derive(Debug)]
pub struct Home {
    value: i64,
}

impl Home {
    /// The mathematical value of the page.
    pub closed spec fn model(&self) -> HomeModel {
        HomeModel { value: self.value as int }
    }

    /// Mounts the page with a count of zero.
    pub fn create() -> (page: Home)
        ensures
            page.model() == HomeModel::initial(),
    {
        Home { value: 0 }
    }

    /// Handles one message and tells whether to paint again.
    pub fn update(&mut self, msg: Msg) -> (render: bool)
        ensures
            final(self).model() == old(self).model().bounded_step(msg).0,
            render == old(self).model().bounded_step(msg).1,
    {
        match msg {
            Msg::Increment => {
                if self.value == i64::MAX {
                    return false;
                }
                self.value = self.value + 1;
                true
            },
        }
    }

    /// Takes new properties.  The page has none and needs no repaint.
    pub fn change(&mut self, props: ()) -> (render: bool)
        ensures
            !render,
            final(self).model() == old(self).model(),
    {
        false
    }

    /// What to show for the present state.
    pub fn view(&self) -> (screen: Screen)
        ensures
            screen.value == self.model().value,
    {
        Screen { value: self.value }
    }
}

/// The count after any number of messages is the count before plus that
/// number.
pub proof fn law_count_adds_up(page: HomeModel, count: nat)
    ensures
        page.run(count).value == page.value + count,
    decreases count,
{
    if count > 0 {
        law_count_adds_up(page, (count - 1) as nat);
    }
}

} // verus!
