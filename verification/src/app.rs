//! The interactive picker application: two independently-ranked candidate
//! sets (discoverable repositories and known sessions) sharing one query
//! buffer and one cursor, a terminal state machine, and the per-event
//! decisions of the frame loop.

use vstd::prelude::*;

use crate::fuzzy::TickStatus;
use crate::picker::Picker;
use crate::repo::GitRepo;
use crate::tmux::Session;

verus! {

/// Which candidate set is focused.
pub enum Mode {
    Repos,
    Sessions,
}

/// The application's lifecycle: `Running` until the user aborts (discarding
/// the selection) or completes on a non-empty match set; both are terminal.
pub enum AppStatus {
    Running,
    Aborted,
    Complete,
}

/// One input event of the frame loop, as the application decides on it.
pub enum AppEvent {
    Abort,
    Input(char),
    Erase,
    Up,
    Down,
    Confirm,
    Toggle,
}

/// The picker unchanged in everything but its query pattern.
pub open spec fn same_but_pattern<T>(a: Picker<T>, b: Picker<T>) -> bool {
    &&& a.spec_items() == b.spec_items()
    &&& a.spec_texts() == b.spec_texts()
    &&& a.spec_matched() == b.spec_matched()
    &&& a.spec_selected() == b.spec_selected()
}

/// The picker's candidates, pattern and match state unchanged (only the
/// cursor may move).
pub open spec fn same_view<T>(a: Picker<T>, b: Picker<T>) -> bool {
    &&& a.spec_items() == b.spec_items()
    &&& a.spec_texts() == b.spec_texts()
    &&& a.spec_pattern() == b.spec_pattern()
    &&& a.spec_matched() == b.spec_matched()
}

/// Where a cursor value lands when it is set against a match count:
/// unchanged while in range, clamped to the last rank when the count
/// shrank below it, pinned at the best rank when nothing matches.
pub open spec fn clamped(cursor: nat, count: nat) -> nat {
    if cursor < count {
        cursor
    } else if count == 0 {
        0
    } else {
        (count - 1) as nat
    }
}

/// The picker application: the repository picker, the session picker, the
/// one query buffer both share, the focused set and the lifecycle state.
pub struct App {
    pub repo_picker: Picker<GitRepo>,
    pub session_picker: Picker<Session>,
    pub search: String,
    pub mode: Mode,
    pub status: AppStatus,
}

impl App {
    pub open spec fn spec_search(self) -> Seq<char> {
        self.search@
    }

    pub open spec fn spec_mode(self) -> Mode {
        self.mode
    }

    pub open spec fn spec_status(self) -> AppStatus {
        self.status
    }

    /// The focused picker's pattern, which tracks the shared query buffer.
    pub open spec fn active_pattern(self) -> Seq<char> {
        match self.spec_mode() {
            Mode::Repos => self.repo_picker.spec_pattern(),
            Mode::Sessions => self.session_picker.spec_pattern(),
        }
    }

    /// How many candidates the focused picker currently matches.
    pub open spec fn active_matched_len(self) -> nat {
        match self.spec_mode() {
            Mode::Repos => self.repo_picker.spec_matched().len(),
            Mode::Sessions => self.session_picker.spec_matched().len(),
        }
    }

    /// The focused picker's cursor.
    pub open spec fn active_selected(self) -> nat {
        match self.spec_mode() {
            Mode::Repos => self.repo_picker.spec_selected(),
            Mode::Sessions => self.session_picker.spec_selected(),
        }
    }

    /// Well-formed: both pickers are well-formed and the focused picker's
    /// pattern is the query buffer (the unfocused picker's pattern may lag;
    /// switching focus re-parses it).
    pub open spec fn wf(self) -> bool {
        &&& self.repo_picker.wf()
        &&& self.session_picker.wf()
        &&& self.active_pattern() == self.spec_search()
    }

    pub fn new(mode: Mode) -> (r: App)
        ensures
            r.wf(),
            r.spec_mode() == mode,
            r.spec_status() is Running,
            r.spec_search() == Seq::<char>::empty(),
            r.repo_picker.spec_items() == Seq::<GitRepo>::empty(),
            r.session_picker.spec_items() == Seq::<Session>::empty(),
    {
        App {
            repo_picker: Picker::new(),
            session_picker: Picker::new(),
            search: String::new(),
            mode,
            status: AppStatus::Running,
        }
    }

    pub fn is_running(&self) -> (r: bool)
        ensures
            r == (self.spec_status() is Running),
    {
        matches!(self.status, AppStatus::Running)
    }

    pub fn mode(&self) -> (m: Mode)
        ensures
            m == self.spec_mode(),
    {
        match self.mode {
            Mode::Repos => Mode::Repos,
            Mode::Sessions => Mode::Sessions,
        }
    }

    pub fn search_str(&self) -> (s: &str)
        ensures
            s@ == self.spec_search(),
    {
        self.search.as_str()
    }

    /// Abort: terminal, the selection is discarded; everything else is
    /// untouched.
    pub fn abort(&mut self)
        requires
            old(self).wf(),
        ensures
            final(self).wf(),
            final(self).spec_status() is Aborted,
            final(self).spec_mode() == old(self).spec_mode(),
            final(self).spec_search() == old(self).spec_search(),
            final(self).repo_picker == old(self).repo_picker,
            final(self).session_picker == old(self).session_picker,
    {
        self.status = AppStatus::Aborted;
    }

    /// Complete: terminal, but only on a non-empty match set — confirming
    /// on an empty one leaves the application running. Everything else is
    /// untouched.
    pub fn complete(&mut self)
        requires
            old(self).wf(),
        ensures
            final(self).wf(),
            final(self).spec_mode() == old(self).spec_mode(),
            final(self).spec_search() == old(self).spec_search(),
            final(self).repo_picker == old(self).repo_picker,
            final(self).session_picker == old(self).session_picker,
            final(self).spec_status() == (if old(self).active_matched_len() > 0 {
                AppStatus::Complete
            } else {
                old(self).spec_status()
            }),
    {
        let count = match self.mode {
            Mode::Repos => self.repo_picker.matched_count(),
            Mode::Sessions => self.session_picker.matched_count(),
        };
        if count > 0 {
            self.status = AppStatus::Complete;
        }
    }

    /// Append one character to the query: a narrowing re-parse of the
    /// focused picker only; the unfocused picker and both candidate lists
    /// are untouched, and so are the focused picker's match state and
    /// cursor until the next ranking advance.
    pub fn push_char(&mut self, c: char)
        requires
            old(self).wf(),
        ensures
            final(self).wf(),
            final(self).spec_search() == old(self).spec_search().push(c),
            final(self).spec_mode() == old(self).spec_mode(),
            final(self).spec_status() == old(self).spec_status(),
            (match old(self).spec_mode() {
                Mode::Repos => final(self).session_picker == old(self).session_picker
                    && same_but_pattern(final(self).repo_picker, old(self).repo_picker),
                Mode::Sessions => final(self).repo_picker == old(self).repo_picker
                    && same_but_pattern(final(self).session_picker, old(self).session_picker),
            }),
    {
        self.search.push(c);
        proof {
            assert(old(self).spec_search().is_prefix_of(self.search@));
        }
        match self.mode {
            Mode::Repos => self.repo_picker.push_char(self.search.as_str()),
            Mode::Sessions => self.session_picker.push_char(self.search.as_str()),
        }
    }

    /// Remove the last character of the query: a widening re-parse of the
    /// focused picker only (a narrower pattern's match set is no safe
    /// filter for a broader one); the unfocused picker and both candidate
    /// lists are untouched.
    pub fn pop_char(&mut self)
        requires
            old(self).wf(),
        ensures
            final(self).wf(),
            final(self).spec_search() == (if old(self).spec_search().len() == 0 {
                old(self).spec_search()
            } else {
                old(self).spec_search().drop_last()
            }),
            final(self).spec_mode() == old(self).spec_mode(),
            final(self).spec_status() == old(self).spec_status(),
            (match old(self).spec_mode() {
                Mode::Repos => final(self).session_picker == old(self).session_picker
                    && same_but_pattern(final(self).repo_picker, old(self).repo_picker),
                Mode::Sessions => final(self).repo_picker == old(self).repo_picker
                    && same_but_pattern(final(self).session_picker, old(self).session_picker),
            }),
    {
        let _ = self.search.pop();
        match self.mode {
            Mode::Repos => self.repo_picker.pop_char(self.search.as_str()),
            Mode::Sessions => self.session_picker.pop_char(self.search.as_str()),
        }
    }

    /// Move the focused cursor away from the best match by one rank,
    /// saturating at the end of the matched range; nothing else changes.
    pub fn inc_selection(&mut self)
        requires
            old(self).wf(),
        ensures
            final(self).wf(),
            final(self).spec_mode() == old(self).spec_mode(),
            final(self).spec_status() == old(self).spec_status(),
            final(self).spec_search() == old(self).spec_search(),
            final(self).active_matched_len() == old(self).active_matched_len(),
            final(self).active_selected() == (if old(self).active_selected() + 1 < old(self).active_matched_len() {
                old(self).active_selected() + 1
            } else {
                old(self).active_selected()
            }),
            (match old(self).spec_mode() {
                Mode::Repos => final(self).session_picker == old(self).session_picker
                    && same_view(final(self).repo_picker, old(self).repo_picker),
                Mode::Sessions => final(self).repo_picker == old(self).repo_picker
                    && same_view(final(self).session_picker, old(self).session_picker),
            }),
    {
        match self.mode {
            Mode::Repos => self.repo_picker.inc_selection(),
            Mode::Sessions => self.session_picker.inc_selection(),
        }
    }

    /// Move the focused cursor one rank toward the best match, stopping at
    /// it; nothing else changes.
    pub fn dec_selection(&mut self)
        requires
            old(self).wf(),
        ensures
            final(self).wf(),
            final(self).spec_mode() == old(self).spec_mode(),
            final(self).spec_status() == old(self).spec_status(),
            final(self).spec_search() == old(self).spec_search(),
            final(self).active_matched_len() == old(self).active_matched_len(),
            final(self).active_selected() == (if old(self).active_selected() > 0 {
                (old(self).active_selected() - 1) as nat
            } else {
                0nat
            }),
            (match old(self).spec_mode() {
                Mode::Repos => final(self).session_picker == old(self).session_picker
                    && same_view(final(self).repo_picker, old(self).repo_picker),
                Mode::Sessions => final(self).repo_picker == old(self).repo_picker
                    && same_view(final(self).session_picker, old(self).session_picker),
            }),
    {
        match self.mode {
            Mode::Repos => self.repo_picker.dec_selection(),
            Mode::Sessions => self.session_picker.dec_selection(),
        }
    }

    /// Switch focus to the other candidate set: the previously focused
    /// picker is untouched; the newly focused picker keeps its candidates,
    /// is re-parsed from the shared query (a full, widening re-scan),
    /// advanced once, and receives the cursor transplanted from the
    /// previously focused picker, re-clamped against its own match count.
    /// The query buffer and the lifecycle state do not change.
    pub fn toggle_mode(&mut self)
        requires
            old(self).wf(),
        ensures
            final(self).wf(),
            final(self).spec_status() == old(self).spec_status(),
            final(self).spec_search() == old(self).spec_search(),
            final(self).spec_mode() == (match old(self).spec_mode() {
                Mode::Repos => Mode::Sessions,
                Mode::Sessions => Mode::Repos,
            }),
            (match old(self).spec_mode() {
                Mode::Repos => final(self).repo_picker == old(self).repo_picker && final(self).session_picker.spec_items() == old(self).session_picker.spec_items() && final(self).session_picker.spec_texts() == old(self).session_picker.spec_texts() && final(self).session_picker.spec_pattern() == old(self).spec_search() && final(self).session_picker.spec_selected() == clamped(
                    old(self).repo_picker.spec_selected(),
                    final(self).session_picker.spec_matched().len(),
                ),
                Mode::Sessions => final(self).session_picker == old(self).session_picker && final(self).repo_picker.spec_items() == old(self).repo_picker.spec_items() && final(self).repo_picker.spec_texts() == old(self).repo_picker.spec_texts() && final(self).repo_picker.spec_pattern() == old(self).spec_search() && final(self).repo_picker.spec_selected() == clamped(
                    old(self).session_picker.spec_selected(),
                    final(self).repo_picker.spec_matched().len(),
                ),
            }),
    {
        match self.mode {
            Mode::Repos => {
                self.mode = Mode::Sessions;
                self.session_picker.pop_char(self.search.as_str());
                let _ = self.session_picker.tick(10);
                let cursor = self.repo_picker.selected();
                self.session_picker.select(cursor);
            },
            Mode::Sessions => {
                self.mode = Mode::Repos;
                self.repo_picker.pop_char(self.search.as_str());
                let _ = self.repo_picker.tick(10);
                let cursor = self.session_picker.selected();
                self.repo_picker.select(cursor);
            },
        }
    }

    /// One bounded ranking advance of the focused picker, as the frame
    /// loop performs once per frame: the unfocused picker is untouched;
    /// the focused picker keeps its candidates and pattern, and its cursor
    /// is re-clamped against the published match count whenever the
    /// snapshot changed. When the engine reports itself idle, the focused
    /// snapshot is complete for the current query.
    pub fn tick(&mut self) -> (st: TickStatus)
        requires
            old(self).wf(),
        ensures
            final(self).wf(),
            final(self).spec_mode() == old(self).spec_mode(),
            final(self).spec_status() == old(self).spec_status(),
            final(self).spec_search() == old(self).spec_search(),
            (match old(self).spec_mode() {
                Mode::Repos => final(self).session_picker == old(self).session_picker && final(self).repo_picker.spec_items() == old(self).repo_picker.spec_items() && final(self).repo_picker.spec_texts() == old(self).repo_picker.spec_texts() && final(self).repo_picker.spec_pattern() == old(self).repo_picker.spec_pattern(),
                Mode::Sessions => final(self).repo_picker == old(self).repo_picker && final(self).session_picker.spec_items() == old(self).session_picker.spec_items() && final(self).session_picker.spec_texts() == old(self).session_picker.spec_texts() && final(self).session_picker.spec_pattern() == old(self).session_picker.spec_pattern(),
            }),
            !st.changed ==> final(self).active_matched_len() == old(self).active_matched_len()
                && final(self).active_selected() == old(self).active_selected(),
            st.changed ==> final(self).active_selected() == clamped(
                old(self).active_selected(),
                final(self).active_matched_len(),
            ),
            !st.running ==> (match final(self).spec_mode() {
                Mode::Repos => final(self).repo_picker.snapshot_complete(),
                Mode::Sessions => final(self).session_picker.snapshot_complete(),
            }),
    {
        match self.mode {
            Mode::Repos => self.repo_picker.tick(10),
            Mode::Sessions => self.session_picker.tick(10),
        }
    }

    /// Apply one input event: the whole per-event decision of the frame
    /// loop — abort and confirm drive the lifecycle, text input edits the
    /// query (narrowing on insertion, widening on erasure), the arrows
    /// move the focused cursor, and toggle switches focus.
    pub fn handle_event(&mut self, e: AppEvent)
        requires
            old(self).wf(),
        ensures
            final(self).wf(),
            e is Abort ==> final(self).spec_status() is Aborted,
            (e is Confirm && old(self).active_matched_len() > 0) ==> final(self).spec_status()
                is Complete,
            (e matches AppEvent::Input(c) ==> final(self).spec_search() == old(self).spec_search().push(c)),
            e is Erase ==> final(self).spec_search() == (if old(self).spec_search().len() == 0 {
                old(self).spec_search()
            } else {
                old(self).spec_search().drop_last()
            }),
            e is Toggle ==> final(self).spec_mode() == (match old(self).spec_mode() {
                Mode::Repos => Mode::Sessions,
                Mode::Sessions => Mode::Repos,
            }),
            !(e is Toggle) ==> final(self).spec_mode() == old(self).spec_mode(),
            !(e is Abort || e is Confirm) ==> final(self).spec_status() == old(self).spec_status(),
            !(e is Input || e is Erase) ==> final(self).spec_search() == old(self).spec_search(),
            e is Up ==> final(self).active_matched_len() == old(self).active_matched_len()
                && final(self).active_selected() == (if old(self).active_selected() + 1 < old(self).active_matched_len() {
                old(self).active_selected() + 1
            } else {
                old(self).active_selected()
            }),
            e is Down ==> final(self).active_matched_len() == old(self).active_matched_len()
                && final(self).active_selected() == (if old(self).active_selected() > 0 {
                (old(self).active_selected() - 1) as nat
            } else {
                0nat
            }),
            (e is Input || e is Erase) ==> (match old(self).spec_mode() {
                Mode::Repos => final(self).session_picker == old(self).session_picker
                    && same_but_pattern(final(self).repo_picker, old(self).repo_picker),
                Mode::Sessions => final(self).repo_picker == old(self).repo_picker
                    && same_but_pattern(final(self).session_picker, old(self).session_picker),
            }),
            e is Toggle ==> (match old(self).spec_mode() {
                Mode::Repos => final(self).repo_picker == old(self).repo_picker && final(self).session_picker.spec_items() == old(self).session_picker.spec_items() && final(self).session_picker.spec_texts() == old(self).session_picker.spec_texts() && final(self).session_picker.spec_pattern() == old(self).spec_search() && final(self).session_picker.spec_selected() == clamped(
                    old(self).repo_picker.spec_selected(),
                    final(self).session_picker.spec_matched().len(),
                ),
                Mode::Sessions => final(self).session_picker == old(self).session_picker && final(self).repo_picker.spec_items() == old(self).repo_picker.spec_items() && final(self).repo_picker.spec_texts() == old(self).repo_picker.spec_texts() && final(self).repo_picker.spec_pattern() == old(self).spec_search() && final(self).repo_picker.spec_selected() == clamped(
                    old(self).session_picker.spec_selected(),
                    final(self).repo_picker.spec_matched().len(),
                ),
            }),
    {
        match e {
            AppEvent::Abort => self.abort(),
            AppEvent::Input(c) => self.push_char(c),
            AppEvent::Erase => self.pop_char(),
            AppEvent::Up => self.inc_selection(),
            AppEvent::Down => self.dec_selection(),
            AppEvent::Confirm => self.complete(),
            AppEvent::Toggle => self.toggle_mode(),
        }
    }
}

} // verus!
