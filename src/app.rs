use crate::cpu::Cpuview;
use crate::event::{Event, Key};
use crate::metrics::{new_system, refresh_cpu, refresh_processes};
use crate::overview::Overview;
use crate::processes::{is_ordered, ProcessesView, TableSort, TableSortPredicate};
use crate::tab::{next_tab, previous_tab, Tab};
use vstd::prelude::*;

verus! {

/// The tab that the key `ch` selects from the active tab `t`: a tab's
/// initial letter in either case jumps to it, the tab character moves to the
/// next tab, and every other character leaves `t` active.
pub open spec fn switched(t: Tab, ch: char) -> Tab {
    if ch == 'o' || ch == 'O' {
        Tab::Overview
    } else if ch == 'c' || ch == 'C' {
        Tab::CPU
    } else if ch == 'm' || ch == 'M' {
        Tab::Memory
    } else if ch == 'p' || ch == 'P' {
        Tab::Processes
    } else if ch == 's' || ch == 'S' {
        Tab::Storage
    } else if ch == 'n' || ch == 'N' {
        Tab::Network
    } else if ch == '\t' {
        next_tab(t)
    } else {
        t
    }
}

/// The characters that `switch_tab` acts on.
pub open spec fn is_tab_key(ch: char) -> bool {
    ch == 'o' || ch == 'O' || ch == 'c' || ch == 'C' || ch == 'm' || ch == 'M' || ch == 'p'
        || ch == 'P' || ch == 's' || ch == 'S' || ch == 'n' || ch == 'N' || ch == '\t'
}

/// The key that quits the dashboard.
pub const QUIT_KEY: char = 'q';

/// The controller's state: the active tab, each view's cache, and the
/// provider that the CPU and process views read.
pub struct AppState {
    pub active_tab: Tab,
    pub overview: Overview,
    pub cpu_view: Cpuview,
    pub process_view: ProcessesView,
    pub system: sysinfo::System,
}

/// What a tick may change: the active view's cache, and nothing of the others.
pub open spec fn tick_changes(old: AppState, new: AppState) -> bool {
    &&& new.active_tab == old.active_tab
    &&& old.active_tab != Tab::Overview ==> new.overview == old.overview
    &&& old.active_tab != Tab::CPU ==> new.cpu_view == old.cpu_view
    &&& old.active_tab != Tab::Processes ==> new.process_view == old.process_view
    &&& (old.active_tab != Tab::CPU && old.active_tab != Tab::Processes) ==> new.system
        == old.system
    &&& old.active_tab == Tab::Overview ==> new.overview@ == (crate::overview::OverviewInfo {
        system: new.overview@.system,
        uptime: new.overview@.uptime,
        ..old.overview@
    })
    &&& old.active_tab == Tab::Processes ==> {
        &&& new.process_view@.predicate == old.process_view@.predicate
        &&& new.process_view@.order == old.process_view@.order
        &&& is_ordered(new.process_view@.rows, new.process_view@.predicate, new.process_view@.order)
    }
}

/// The application controller: owns the active tab and the views, and
/// routes every event to the active view only.
pub struct App {
    active_tab: Tab,
    system_info: sysinfo::System,
    overview: Overview,
    cpu_view: Cpuview,
    process_view: ProcessesView,
}

impl View for App {
    type V = AppState;

    closed spec fn view(&self) -> AppState {
        AppState {
            active_tab: self.active_tab,
            overview: self.overview,
            cpu_view: self.cpu_view,
            process_view: self.process_view,
            system: self.system_info,
        }
    }
}

impl App {
    /// A controller on the overview tab, with the process table filled once
    /// and ordered by name, ascending.
    pub fn new() -> (r: Self)
        ensures
            r@.active_tab == Tab::Overview,
            r@.process_view@.predicate == TableSortPredicate::Name,
            r@.process_view@.order == TableSort::Ascending,
            is_ordered(r@.process_view@.rows, TableSortPredicate::Name, TableSort::Ascending),
            r@.cpu_view@.brand.len() == 0,
            r@.cpu_view@.usages.len() == 0,
            r@.overview@.uptime == 0,
    {
        let system_info = new_system();
        let mut process_view = ProcessesView::new();
        process_view.refresh(&system_info);
        App {
            active_tab: Tab::Overview,
            system_info,
            overview: Overview::new(),
            cpu_view: Cpuview::new(),
            process_view,
        }
    }

    pub fn active_tab(&self) -> (r: Tab)
        ensures
            r == self@.active_tab,
    {
        self.active_tab
    }

    pub fn overview(&self) -> (r: &Overview)
        ensures
            *r == self@.overview,
    {
        &self.overview
    }

    pub fn cpu_view(&self) -> (r: &Cpuview)
        ensures
            *r == self@.cpu_view,
    {
        &self.cpu_view
    }

    pub fn process_view(&self) -> (r: &ProcessesView)
        ensures
            *r == self@.process_view,
    {
        &self.process_view
    }

    /// The provider that the CPU and process views read.
    pub fn system(&self) -> (r: &sysinfo::System)
        ensures
            *r == self@.system,
    {
        &self.system_info
    }

    /// Hands an arrow key to the active view, where that view takes them
    /// (the process table); the tab stays.
    pub fn handle_arrow_keys(&self, key: Key) {
        match self.active_tab {
            Tab::Overview => (),
            Tab::CPU => (),
            Tab::Memory => (),
            Tab::Processes => self.process_view.handle_arrow_keys(key),
            Tab::Storage => (),
            Tab::Network => (),
        }
    }

    /// Makes the tab that `ch` selects active.
    pub fn switch_tab(&mut self, ch: char)
        ensures
            final(self)@ == (AppState { active_tab: switched(old(self)@.active_tab, ch), ..old(self)@ }),
    {
        match ch {
            'o' | 'O' => self.active_tab = Tab::Overview,
            'c' | 'C' => self.active_tab = Tab::CPU,
            'm' | 'M' => self.active_tab = Tab::Memory,
            'p' | 'P' => self.active_tab = Tab::Processes,
            's' | 'S' => self.active_tab = Tab::Storage,
            'n' | 'N' => self.active_tab = Tab::Network,
            '\t' => self.active_tab.next(),
            _ => (),
        }
    }

    /// Makes the tab before the active one active.
    pub fn previous_tab(&mut self)
        ensures
            final(self)@ == (AppState { active_tab: previous_tab(old(self)@.active_tab), ..old(self)@ }),
    {
        self.active_tab.previous();
    }

    /// Refreshes the active view's data and no other view's.
    pub fn tick(&mut self)
        ensures
            tick_changes(old(self)@, final(self)@),
    {
        match self.active_tab {
            Tab::Overview => {
                self.overview.tick();
            },
            Tab::CPU => {
                refresh_cpu(&mut self.system_info);
                self.cpu_view.update(&self.system_info);
            },
            Tab::Processes => {
                refresh_processes(&mut self.system_info);
                self.process_view.refresh(&self.system_info);
            },
            Tab::Memory | Tab::Storage | Tab::Network => {},
        }
    }

    /// One turn of the main loop on the event received, if any: the quit key
    /// ends the loop (returns false), a tick refreshes the active view,
    /// Backspace goes to the previous tab, arrow keys go to the active view,
    /// other characters switch tabs. Without an event nothing changes.
    pub fn handle_event(&mut self, event: Option<Event<Key>>) -> (running: bool)
        ensures
            running == !(event == Some(Event::<Key>::Input(Key::Char(QUIT_KEY)))),
            match event {
                None => final(self)@ == old(self)@,
                Some(Event::Tick) => tick_changes(old(self)@, final(self)@),
                Some(Event::Input(key)) => match key {
                    Key::Backspace => final(self)@ == (AppState {
                        active_tab: previous_tab(old(self)@.active_tab),
                        ..old(self)@
                    }),
                    Key::Char(ch) => ch == QUIT_KEY ==> final(self)@ == old(self)@,
                    _ => final(self)@ == old(self)@,
                },
            },
            forall|ch: char|
                ch != QUIT_KEY && event == Some(Event::<Key>::Input(Key::Char(ch))) ==> final(self)@
                    == (AppState { active_tab: switched(old(self)@.active_tab, ch), ..old(self)@ }),
    {
        match event {
            None => true,
            Some(Event::Tick) => {
                self.tick();
                true
            },
            Some(Event::Input(key)) => match key {
                Key::Char(ch) => {
                    if ch == QUIT_KEY {
                        false
                    } else {
                        self.switch_tab(ch);
                        true
                    }
                },
                Key::Backspace => {
                    self.previous_tab();
                    true
                },
                Key::Up | Key::Down | Key::Left | Key::Right => {
                    self.handle_arrow_keys(key);
                    true
                },
                Key::Other => true,
            },
        }
    }
}

/// Switching tabs depends on the active tab and the character alone: an
/// 'o' or 'O' always selects the overview, and a character that names no tab
/// leaves the active tab as it is.
pub proof fn lemma_switch_tab_pure(t: Tab, ch: char)
    ensures
        (ch == 'o' || ch == 'O') ==> switched(t, ch) == Tab::Overview,
        !is_tab_key(ch) ==> switched(t, ch) == t,
{
}

/// From the overview, the key 'c' makes the CPU tab active, and the tick
/// that follows leaves the overview's cache exactly as it was.
pub proof fn lemma_tick_after_switch_leaves_overview(
    start: AppState,
    switched_state: AppState,
    ticked: AppState,
)
    requires
        start.active_tab == Tab::Overview,
        switched_state == (AppState { active_tab: switched(start.active_tab, 'c'), ..start }),
        tick_changes(switched_state, ticked),
    ensures
        ticked.active_tab == Tab::CPU,
        ticked.overview == start.overview,
        ticked.process_view == start.process_view,
{
}

} // verus!
