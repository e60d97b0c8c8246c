use vstd::prelude::*;

use crate::data::FarmData;
use crate::sync::{wait_step, PanelWait, Probe, Target, WaitStatus, PANEL_TIMEOUT_MS, POLL_INTERVAL_MS};

verus! {

/// How many records a run gathers unless told otherwise.
pub const DEFAULT_MAX_RESULTS: usize = 50;

/// Milliseconds left for a new page to render after its control is clicked.
pub const PAGE_SETTLE_MS: u64 = 4000;

/// Where the traversal stands.
#[derive(Clone, Copy, PartialEq, Eq, Structural, Debug)]
pub enum Phase {
    /// Waiting for the count of result entries on the current page.
    Scanning,
    /// Waiting for the outcome of clicking the entry at the cursor.
    Opening,
    /// Waiting for the detail panel to become visible.
    AwaitingPanel,
    /// Waiting for the fields read from the detail panel.
    Reading,
    /// Waiting for the detail panel to go away.
    Closing,
    /// Waiting to learn whether the next page has a control.
    AdvancingPage,
    /// No more results: the records are ready for export.
    Done,
    /// A hard failure stopped the run.
    Failed,
}

/// What the driver of the browser is asked to do next.
#[derive(Clone, Copy, PartialEq, Eq, Structural, Debug)]
pub enum Command {
    /// Find all result entries on the page; answer `Entries`.
    QueryEntries,
    /// Click the result entry at this position; answer `Clicked`, `Stale` or `ActionFailed`.
    ClickEntry(usize),
    /// Pause, then query the detail panel's visibility; answer `Probed`.
    ProbePanel { delay_ms: u64 },
    /// Find the detail panel and read its title and text blocks; answer `Record` or `NoRecord`.
    ReadPanel,
    /// Click the panel's close control, pause, then query the panel; answer
    /// `Probed` or `ActionFailed`.
    CloseThenProbe { delay_ms: u64 },
    /// Look up the control for this page; answer `PageFound` or `PageMissing`.
    FindPage(u32),
    /// Click the page control just found, pause, then find all result entries;
    /// answer `Entries` or `ActionFailed`.
    OpenPage { settle_ms: u64 },
    /// Stop and export the records.
    Finish,
    /// Stop with an error.
    Abort,
}

/// What the driver of the browser saw when it carried out a command.
pub enum Event {
    /// This many result entries are on the page.
    Entries(usize),
    /// The entry was clicked.
    Clicked,
    /// The entry's reference went stale before the click.
    Stale,
    /// A click failed for another reason.
    ActionFailed,
    /// A visibility query of the detail panel.
    Probed(Probe),
    /// The fields of the detail panel.
    Record(FarmData),
    /// The detail panel or its title could not be read.
    NoRecord,
    /// The page control exists.
    PageFound,
    /// The pagination container or the page control does not exist.
    PageMissing,
}

/// The result traversal: a cursor over pages and entries, the records gathered
/// so far, and the wait in progress.
pub struct Traversal {
    pub phase: Phase,
    /// The current page, counted from one.
    pub page: u32,
    /// The position of the current entry within the page.
    pub index: usize,
    /// How many entries the page had when last counted.
    pub entry_count: usize,
    /// The most records the run gathers.
    pub max_results: usize,
    /// The current entry has already been clicked once and found stale; the
    /// mark is cleared by a successful click and by a new page.
    pub retried: bool,
    /// The panel wait in progress, or the last one.
    pub wait: PanelWait,
    /// The records gathered so far, in the order of their entries.
    pub records: Vec<FarmData>,
}

/// A panel wait for `target` that has not queried yet.
pub open spec fn fresh_wait(target: Target) -> PanelWait {
    PanelWait { target, timeout_ms: PANEL_TIMEOUT_MS, elapsed_ms: 0 }
}

impl Traversal {
    /// The cap is never passed, pages count from one, and an entry being
    /// handled is one of the entries last counted.
    pub open spec fn wf(&self) -> bool {
        &&& self.records@.len() <= self.max_results
        &&& self.page >= 1
        &&& self.wait.wf()
        &&& (self.phase == Phase::Opening || self.phase == Phase::AwaitingPanel
            || self.phase == Phase::Reading) ==> {
            &&& self.index < self.entry_count
            &&& self.records@.len() < self.max_results
        }
        &&& self.phase == Phase::Closing ==> self.index < self.entry_count
        &&& self.phase == Phase::AwaitingPanel ==> self.wait.target == Target::Visible
        &&& self.phase == Phase::Closing ==> self.wait.target == Target::Gone
        &&& self.phase == Phase::AdvancingPage ==> self.page < u32::MAX
    }

    /// A traversal at the first entry of the first page, with no record yet,
    /// waiting for the entry count; the driver starts with `QueryEntries`.
    pub fn new(max_results: usize) -> (r: Self)
        ensures
            r.wf(),
            r.phase == Phase::Scanning,
            r.page == 1,
            r.index == 0,
            r.max_results == max_results,
            !r.retried,
            r.records@.len() == 0,
    {
        Traversal {
            phase: Phase::Scanning,
            page: 1,
            index: 0,
            entry_count: 0,
            max_results,
            retried: false,
            wait: PanelWait::new(Target::Visible, PANEL_TIMEOUT_MS),
            records: Vec::new(),
        }
    }

    /// Takes what the driver saw and decides the next command.
    ///
    /// An event that the current phase does not expect fails the run. A stale
    /// entry is queried again and clicked once more at the same position; a
    /// second stale click in a row fails the run. Panel waits never fail the
    /// run: once one ends, reached or timed out, the traversal moves on.
    pub fn step(&mut self, event: Event) -> (r: Command)
        requires
            old(self).wf(),
        ensures
            final(self).wf(),
            final(self).max_results == old(self).max_results,
            (r == Command::Finish) == (final(self).phase == Phase::Done),
            (r == Command::Abort) == (final(self).phase == Phase::Failed),
            // records: one is added exactly when the panel's fields arrive
            (old(self).phase == Phase::Reading && event is Record) ==> final(self).records@
                == old(self).records@.push(event->Record_0),
            !(old(self).phase == Phase::Reading && event is Record) ==> final(self).records@
                == old(self).records@,
            // the cursor moves only past a closed panel or onto a new page
            (old(self).phase == Phase::Closing && final(self).phase == Phase::Scanning)
                ==> final(self).index == old(self).index + 1 && final(self).page == old(self).page,
            (old(self).phase == Phase::AdvancingPage && event is PageFound) ==> final(self).index == 0
                && final(self).page == old(self).page + 1,
            !(old(self).phase == Phase::Closing && final(self).phase == Phase::Scanning)
                && !(old(self).phase == Phase::AdvancingPage && event is PageFound) ==> final(self).index
                == old(self).index && final(self).page == old(self).page,
            // the retry mark, the entry count and the wait change only where stated
            (old(self).phase == Phase::AdvancingPage && event is PageFound) ==> !final(self).retried,
            old(self).phase != Phase::Opening && !(old(self).phase == Phase::AdvancingPage
                && event is PageFound) ==> final(self).retried == old(self).retried,
            !(old(self).phase == Phase::Scanning && event is Entries) ==> final(self).entry_count
                == old(self).entry_count,
            (old(self).phase == Phase::Scanning || old(self).phase == Phase::AdvancingPage
                || old(self).phase == Phase::Done || old(self).phase == Phase::Failed)
                ==> final(self).wait == old(self).wait,
            // finished runs stay finished
            old(self).phase == Phase::Done ==> final(self).phase == Phase::Done,
            old(self).phase == Phase::Failed ==> final(self).phase == Phase::Failed,
            // scanning a page
            old(self).phase == Phase::Scanning ==> match event {
                Event::Entries(c) => {
                    &&& final(self).entry_count == c
                    &&& final(self).retried == old(self).retried
                    &&& if old(self).records@.len() >= old(self).max_results {
                        r == Command::Finish
                    } else if old(self).index >= c {
                        if old(self).page < u32::MAX {
                            final(self).phase == Phase::AdvancingPage && r == Command::FindPage(
                                (old(self).page + 1) as u32,
                            )
                        } else {
                            r == Command::Finish
                        }
                    } else {
                        final(self).phase == Phase::Opening && r == Command::ClickEntry(old(self).index)
                    }
                },
                _ => r == Command::Abort,
            },
            // opening an entry
            old(self).phase == Phase::Opening ==> match event {
                Event::Clicked => {
                    &&& final(self).phase == Phase::AwaitingPanel
                    &&& final(self).wait == fresh_wait(Target::Visible)
                    &&& !final(self).retried
                    &&& r == Command::ProbePanel { delay_ms: 0 }
                },
                Event::Stale => if old(self).retried {
                    r == Command::Abort
                } else {
                    final(self).phase == Phase::Scanning && final(self).retried && r
                        == Command::QueryEntries
                },
                _ => r == Command::Abort,
            },
            // waiting for the panel to show
            old(self).phase == Phase::AwaitingPanel ==> match event {
                Event::Probed(p) => {
                    let (w, s) = wait_step(old(self).wait, p);
                    if s == WaitStatus::Pending {
                        &&& final(self).phase == Phase::AwaitingPanel
                        &&& final(self).wait == w
                        &&& r == Command::ProbePanel { delay_ms: POLL_INTERVAL_MS }
                    } else {
                        final(self).phase == Phase::Reading && r == Command::ReadPanel
                    }
                },
                _ => r == Command::Abort,
            },
            // reading the panel, with or without a record
            old(self).phase == Phase::Reading ==> match event {
                Event::Record(_) | Event::NoRecord => {
                    &&& final(self).phase == Phase::Closing
                    &&& final(self).wait == fresh_wait(Target::Gone)
                    &&& r == Command::ProbePanel { delay_ms: 0 }
                },
                _ => r == Command::Abort,
            },
            // waiting for the panel to go
            old(self).phase == Phase::Closing ==> match event {
                Event::Probed(p) => {
                    let (w, s) = wait_step(old(self).wait, p);
                    if s == WaitStatus::Pending {
                        &&& final(self).phase == Phase::Closing
                        &&& final(self).wait == w
                        &&& r == Command::CloseThenProbe { delay_ms: POLL_INTERVAL_MS }
                    } else {
                        final(self).phase == Phase::Scanning && r == Command::QueryEntries
                    }
                },
                _ => r == Command::Abort,
            },
            // moving to the next page
            old(self).phase == Phase::AdvancingPage ==> match event {
                Event::PageFound => {
                    &&& final(self).phase == Phase::Scanning
                    &&& r == Command::OpenPage { settle_ms: PAGE_SETTLE_MS }
                },
                Event::PageMissing => r == Command::Finish,
                _ => r == Command::Abort,
            },
    {
        match self.phase {
            Phase::Scanning => match event {
                Event::Entries(c) => {
                    self.entry_count = c;
                    if self.records.len() >= self.max_results {
                        self.phase = Phase::Done;
                        Command::Finish
                    } else if self.index >= c {
                        if self.page < u32::MAX {
                            self.phase = Phase::AdvancingPage;
                            Command::FindPage(self.page + 1)
                        } else {
                            self.phase = Phase::Done;
                            Command::Finish
                        }
                    } else {
                        self.phase = Phase::Opening;
                        Command::ClickEntry(self.index)
                    }
                },
                _ => self.fail(),
            },
            Phase::Opening => match event {
                Event::Clicked => {
                    self.phase = Phase::AwaitingPanel;
                    self.retried = false;
                    self.wait = PanelWait::new(Target::Visible, PANEL_TIMEOUT_MS);
                    Command::ProbePanel { delay_ms: 0 }
                },
                Event::Stale => {
                    if self.retried {
                        self.fail()
                    } else {
                        self.retried = true;
                        self.phase = Phase::Scanning;
                        Command::QueryEntries
                    }
                },
                _ => self.fail(),
            },
            Phase::AwaitingPanel => match event {
                Event::Probed(p) => {
                    let s = self.wait.observe(p);
                    if s == WaitStatus::Pending {
                        Command::ProbePanel { delay_ms: POLL_INTERVAL_MS }
                    } else {
                        self.phase = Phase::Reading;
                        Command::ReadPanel
                    }
                },
                _ => self.fail(),
            },
            Phase::Reading => match event {
                Event::Record(farm) => {
                    self.records.push(farm);
                    self.phase = Phase::Closing;
                    self.wait = PanelWait::new(Target::Gone, PANEL_TIMEOUT_MS);
                    Command::ProbePanel { delay_ms: 0 }
                },
                Event::NoRecord => {
                    self.phase = Phase::Closing;
                    self.wait = PanelWait::new(Target::Gone, PANEL_TIMEOUT_MS);
                    Command::ProbePanel { delay_ms: 0 }
                },
                _ => self.fail(),
            },
            Phase::Closing => match event {
                Event::Probed(p) => {
                    let s = self.wait.observe(p);
                    if s == WaitStatus::Pending {
                        Command::CloseThenProbe { delay_ms: POLL_INTERVAL_MS }
                    } else {
                        self.phase = Phase::Scanning;
                        self.index = self.index + 1;
                        Command::QueryEntries
                    }
                },
                _ => self.fail(),
            },
            Phase::AdvancingPage => match event {
                Event::PageFound => {
                    self.phase = Phase::Scanning;
                    self.page = self.page + 1;
                    self.index = 0;
                    self.retried = false;
                    Command::OpenPage { settle_ms: PAGE_SETTLE_MS }
                },
                Event::PageMissing => {
                    self.phase = Phase::Done;
                    Command::Finish
                },
                _ => self.fail(),
            },
            Phase::Done => Command::Finish,
            Phase::Failed => Command::Abort,
        }
    }

    /// Stops the run with an error.
    fn fail(&mut self) -> (r: Command)
        requires
            old(self).wf(),
        ensures
            final(self).wf(),
            final(self).phase == Phase::Failed,
            r == Command::Abort,
            final(self).records@ == old(self).records@,
            final(self).index == old(self).index,
            final(self).page == old(self).page,
            final(self).max_results == old(self).max_results,
            final(self).entry_count == old(self).entry_count,
            final(self).retried == old(self).retried,
            final(self).wait == old(self).wait,
    {
        self.phase = Phase::Failed;
        Command::Abort
    }
}

} // verus!
