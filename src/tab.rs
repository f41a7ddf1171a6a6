use vstd::prelude::*;

verus! {

/// The dashboard's tabs, in their cyclic order.
#[derive(Clone, Copy, PartialEq, Eq, Structural, Debug)]
pub enum Tab {
    Overview,
    CPU,
    Memory,
    Processes,
    Storage,
    Network,
}

/// Number of tabs in the cycle.
pub const TAB_COUNT: usize = 6;

/// Position of a tab in the cycle.
pub open spec fn tab_index(t: Tab) -> nat {
    match t {
        Tab::Overview => 0,
        Tab::CPU => 1,
        Tab::Memory => 2,
        Tab::Processes => 3,
        Tab::Storage => 4,
        Tab::Network => 5,
    }
}

/// The tab at a position of the cycle, taken modulo its length.
pub open spec fn tab_at(i: int) -> Tab {
    let k = i % (TAB_COUNT as int);
    if k == 0 {
        Tab::Overview
    } else if k == 1 {
        Tab::CPU
    } else if k == 2 {
        Tab::Memory
    } else if k == 3 {
        Tab::Processes
    } else if k == 4 {
        Tab::Storage
    } else {
        Tab::Network
    }
}

/// The tab after `t`, wrapping from the last to the first.
pub open spec fn next_tab(t: Tab) -> Tab {
    tab_at(tab_index(t) + 1int)
}

/// The tab before `t`, wrapping from the first to the last.
pub open spec fn previous_tab(t: Tab) -> Tab {
    tab_at(tab_index(t) + TAB_COUNT - 1int)
}

impl Tab {
    pub fn next(&mut self)
        ensures
            *final(self) == next_tab(*old(self)),
    {
        match self {
            Tab::Overview => *self = Tab::CPU,
            Tab::CPU => *self = Tab::Memory,
            Tab::Memory => *self = Tab::Processes,
            Tab::Processes => *self = Tab::Storage,
            Tab::Storage => *self = Tab::Network,
            Tab::Network => *self = Tab::Overview,
        }
    }

    pub fn previous(&mut self)
        ensures
            *final(self) == previous_tab(*old(self)),
    {
        match self {
            Tab::Overview => *self = Tab::Network,
            Tab::CPU => *self = Tab::Overview,
            Tab::Memory => *self = Tab::CPU,
            Tab::Processes => *self = Tab::Memory,
            Tab::Storage => *self = Tab::Processes,
            Tab::Network => *self = Tab::Storage,
        }
    }

    /// Position of the tab in the selector strip.
    pub fn index(&self) -> (r: usize)
        ensures
            r == tab_index(*self),
            r < TAB_COUNT,
    {
        match self {
            Tab::Overview => 0,
            Tab::CPU => 1,
            Tab::Memory => 2,
            Tab::Processes => 3,
            Tab::Storage => 4,
            Tab::Network => 5,
        }
    }
}

impl From<Tab> for usize {
    fn from(tab: Tab) -> (r: usize) {
        tab.index()
    }
}

impl vstd::std_specs::convert::FromSpecImpl<Tab> for usize {
    open spec fn obeys_from_spec() -> bool {
        true
    }

    open spec fn from_spec(tab: Tab) -> usize {
        tab_index(tab) as usize
    }
}

/// Every tab is the tab at its own position.
pub proof fn lemma_tab_at_index(t: Tab)
    ensures
        tab_at(tab_index(t) as int) == t,
{
}

/// Moving to the next tab and then back to the previous one returns to the
/// starting tab, and so does the opposite order: the tabs form a cycle.
pub proof fn lemma_next_previous_inverse(t: Tab)
    ensures
        previous_tab(next_tab(t)) == t,
        next_tab(previous_tab(t)) == t,
{
}

/// Six steps forward around the cycle return to the starting tab.
pub proof fn lemma_cycle_length(t: Tab)
    ensures
        next_tab(next_tab(next_tab(next_tab(next_tab(next_tab(t)))))) == t,
{
}

} // verus!
