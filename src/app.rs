//! The dashboard's state machine: selection cursors, tabs, and the
//! confirmation protocol that guards risky actions.
//!
//! The machine does no outside work itself. `App::handle_key` returns an
//! `Effect` that names the work to do (quit, rebuild the snapshot, run an
//! action); the caller performs it and hands the result back through
//! `App::refresh`, `App::tick`, `App::finish_action` and
//! `App::reload_snapshot`.

use vstd::prelude::*;

use crate::actions::{DashboardAction, Risk};
use crate::state::{BotStatus, Snapshot};
use crate::text::{ascii_upper, is_alnum, is_ascii_alnum, join, pop_char, push_char, upper_ascii};

verus! {

/// The token that confirms a dangerous action.
pub const DANGER_CONFIRM_TOKEN: &'static str = "DELETE";

/// The shortest pause between two automatic refreshes, in milliseconds.
pub const AUTO_REFRESH_MS: u128 = 1000;

/// The characters of the confirmation token.
pub open spec fn token() -> Seq<char> {
    "DELETE"@
}

/// The views of the dashboard.
#[derive(Clone, Copy, Debug, PartialEq, Eq, Structural)]
pub enum Tab {
    Overview,
    BotDetail,
    Scripts,
    Alerts,
}

/// The title shown for each tab.
pub open spec fn tab_title(t: Tab) -> Seq<char> {
    match t {
        Tab::Overview => "Overview"@,
        Tab::BotDetail => "Bot Detail"@,
        Tab::Scripts => "Scripts"@,
        Tab::Alerts => "Alerts"@,
    }
}

/// The tab after `t` in the ring.
pub open spec fn tab_after(t: Tab) -> Tab {
    match t {
        Tab::Overview => Tab::BotDetail,
        Tab::BotDetail => Tab::Scripts,
        Tab::Scripts => Tab::Alerts,
        Tab::Alerts => Tab::Overview,
    }
}

/// The tab before `t` in the ring.
pub open spec fn tab_before(t: Tab) -> Tab {
    match t {
        Tab::Overview => Tab::Alerts,
        Tab::BotDetail => Tab::Overview,
        Tab::Scripts => Tab::BotDetail,
        Tab::Alerts => Tab::Scripts,
    }
}

impl Tab {
    pub fn title(self) -> (r: &'static str)
        ensures
            r@ == tab_title(self),
    {
        match self {
            Tab::Overview => "Overview",
            Tab::BotDetail => "Bot Detail",
            Tab::Scripts => "Scripts",
            Tab::Alerts => "Alerts",
        }
    }
}

/// One input event, independent of the terminal library.
#[derive(Clone, Copy, Debug, PartialEq, Eq, Structural)]
pub enum Key {
    Char(char),
    Up,
    Down,
    Left,
    Right,
    Tab,
    Enter,
    Esc,
    Backspace,
    Other,
}

/// The outside work that an input calls for.
#[derive(Clone, Copy, Debug, PartialEq, Eq, Structural)]
pub enum Effect {
    /// Nothing to do.
    Stay,
    /// Leave the run loop.
    Quit,
    /// Rebuild the snapshot and hand it to `App::refresh`.
    Refresh,
    /// Run the catalogue entry at this index and hand its report to `App::finish_action`.
    Run(usize),
}

/// An action that waits for the operator's confirmation.
#[derive(Debug)]
pub enum PendingAction {
    Confirm { action_index: usize },
    Danger { action_index: usize, typed: String },
}

/// A pending confirmation as plain values.
pub enum PendingView {
    Confirm(nat),
    Danger(nat, Seq<char>),
}

/// A pending confirmation, if any, as plain values.
pub open spec fn pending_view(p: Option<PendingAction>) -> Option<PendingView> {
    match p {
        Some(PendingAction::Confirm { action_index }) => Some(PendingView::Confirm(action_index as nat)),
        Some(PendingAction::Danger { action_index, typed }) => Some(PendingView::Danger(action_index as nat, typed@)),
        None => None,
    }
}

/// The part of the dashboard's state that input changes.
pub struct Control {
    pub selected_bot: nat,
    pub selected_action: nat,
    pub tab: Tab,
    pub pending: Option<PendingView>,
    pub output: Seq<char>,
}

/// The index after `i` in a ring of `len` items; 0 for an empty ring.
pub open spec fn next_index(i: nat, len: nat) -> nat {
    if len == 0 { 0 } else { (i + 1) % len }
}

/// The index before `i` in a ring of `len` items; 0 for an empty ring.
pub open spec fn prev_index(i: nat, len: nat) -> nat {
    if len == 0 { 0 } else if i == 0 { (len - 1) as nat } else { (i - 1) as nat }
}

/// The typed token after one more character: an ASCII letter or digit is
/// appended in upper case while the token is shorter than the required one;
/// anything else is dropped.
pub open spec fn typed_after(typed: Seq<char>, c: char) -> Seq<char> {
    if is_ascii_alnum(c) && typed.len() < token().len() {
        typed.push(ascii_upper(c))
    } else {
        typed
    }
}

pub open spec fn cancelled_text() -> Seq<char> {
    "Action cancelled."@
}

pub open spec fn danger_cancelled_text() -> Seq<char> {
    "Danger action cancelled."@
}

pub open spec fn mismatch_text() -> Seq<char> {
    "Confirmation token mismatch. Type DELETE and press Enter."@
}

pub open spec fn refreshed_text() -> Seq<char> {
    "Refreshed status data."@
}

pub open spec fn auto_refresh_failed_prefix() -> Seq<char> {
    "Auto-refresh failed: "@
}

/// `i` brought into a range of `len` indices; 0 where the range is empty.
pub open spec fn clamp_index(i: nat, len: nat) -> nat {
    if len == 0 { 0 } else if i < len { i } else { (len - 1) as nat }
}

/// Whether enough time has passed since the last automatic refresh for another.
pub fn refresh_due(elapsed_ms: u128) -> (r: bool)
    ensures
        r == (elapsed_ms >= AUTO_REFRESH_MS),
{
    elapsed_ms >= AUTO_REFRESH_MS
}

pub open spec fn no_actions_text() -> Seq<char> {
    "No actions configured."@
}

/// What an input does while a confirmation is pending.
pub open spec fn pending_step(c: Control, p: PendingView, key: Key) -> (Control, Effect) {
    match p {
        PendingView::Confirm(i) => {
            if key == Key::Char('y') || key == Key::Char('Y') {
                (Control { pending: None, ..c }, Effect::Run(i as usize))
            } else if key == Key::Char('n') || key == Key::Char('N') || key == Key::Esc {
                (Control { pending: None, output: cancelled_text(), ..c }, Effect::Stay)
            } else {
                (c, Effect::Stay)
            }
        },
        PendingView::Danger(i, t) => match key {
            Key::Esc => (Control { pending: None, output: danger_cancelled_text(), ..c }, Effect::Stay),
            Key::Backspace => (
                Control { pending: Some(PendingView::Danger(i, if t.len() == 0 { t } else { t.drop_last() })), ..c },
                Effect::Stay,
            ),
            Key::Enter => if t == token() {
                (Control { pending: None, ..c }, Effect::Run(i as usize))
            } else {
                (Control { output: mismatch_text(), ..c }, Effect::Stay)
            },
            Key::Char(ch) => (Control { pending: Some(PendingView::Danger(i, typed_after(t, ch))), ..c }, Effect::Stay),
            _ => (c, Effect::Stay),
        },
    }
}

/// What the run input does: it arms or runs the selected action by its risk.
pub open spec fn dispatch_step(c: Control, risks: Seq<Risk>) -> (Control, Effect) {
    if risks.len() == 0 {
        (Control { output: no_actions_text(), ..c }, Effect::Stay)
    } else {
        let i: nat = c.selected_action % risks.len();
        let c2 = Control { selected_action: i as nat, ..c };
        match risks[i as int] {
            Risk::Safe => (c2, Effect::Run(i as usize)),
            Risk::Confirm => (Control { pending: Some(PendingView::Confirm(i as nat)), ..c2 }, Effect::Stay),
            Risk::Danger => (Control { pending: Some(PendingView::Danger(i as nat, Seq::empty())), ..c2 }, Effect::Stay),
        }
    }
}

/// The inputs that move a cursor down.
pub open spec fn is_down(key: Key) -> bool {
    key == Key::Down || key == Key::Char('j')
}

/// The inputs that move a cursor up.
pub open spec fn is_up(key: Key) -> bool {
    key == Key::Up || key == Key::Char('k')
}

/// What an input does while no confirmation is pending.
pub open spec fn idle_step(c: Control, bots: nat, risks: Seq<Risk>, key: Key) -> (Control, Effect) {
    if key == Key::Char('q') {
        (c, Effect::Quit)
    } else if key == Key::Char('r') {
        (c, Effect::Refresh)
    } else if is_down(key) {
        if c.tab == Tab::Scripts {
            (Control { selected_action: next_index(c.selected_action, risks.len()), ..c }, Effect::Stay)
        } else {
            (Control { selected_bot: next_index(c.selected_bot, bots), ..c }, Effect::Stay)
        }
    } else if is_up(key) {
        if c.tab == Tab::Scripts {
            (Control { selected_action: prev_index(c.selected_action, risks.len()), ..c }, Effect::Stay)
        } else {
            (Control { selected_bot: prev_index(c.selected_bot, bots), ..c }, Effect::Stay)
        }
    } else if key == Key::Right || key == Key::Tab {
        (Control { tab: tab_after(c.tab), ..c }, Effect::Stay)
    } else if key == Key::Left {
        (Control { tab: tab_before(c.tab), ..c }, Effect::Stay)
    } else if key == Key::Char('x') {
        dispatch_step(c, risks)
    } else {
        (c, Effect::Stay)
    }
}

/// What one input does to the dashboard with `bots` bots and actions of the
/// given risks: a pending confirmation takes every input.
pub open spec fn step(c: Control, bots: nat, risks: Seq<Risk>, key: Key) -> (Control, Effect) {
    match c.pending {
        Some(p) => pending_step(c, p, key),
        None => idle_step(c, bots, risks, key),
    }
}

/// The risk tier of each action of a catalogue.
pub open spec fn risks_of(actions: Seq<DashboardAction>) -> Seq<Risk> {
    actions.map_values(|a: DashboardAction| a.risk)
}

/// The state of the dashboard.
pub struct App {
    pub snapshot: Snapshot,
    pub selected_bot: usize,
    pub selected_action: usize,
    pub tab: Tab,
    pub last_output: String,
    pub actions: Vec<DashboardAction>,
    pub pending_action: Option<PendingAction>,
}

impl App {
    /// The part of the state that input changes.
    pub open spec fn control(&self) -> Control {
        Control {
            selected_bot: self.selected_bot as nat,
            selected_action: self.selected_action as nat,
            tab: self.tab,
            pending: pending_view(self.pending_action),
            output: self.last_output@,
        }
    }

    /// The cursors point into their collections, or are 0 where a collection
    /// is empty, and a pending confirmation names an action of the catalogue
    /// and holds at most as many characters as the token.
    pub open spec fn wf(&self) -> bool {
        &&& (self.snapshot.bots@.len() == 0 ==> self.selected_bot == 0)
        &&& (self.snapshot.bots@.len() > 0 ==> self.selected_bot < self.snapshot.bots@.len())
        &&& (self.actions@.len() == 0 ==> self.selected_action == 0)
        &&& (self.actions@.len() > 0 ==> self.selected_action < self.actions@.len())
        &&& match self.pending_action {
            Some(PendingAction::Confirm { action_index }) => action_index < self.actions@.len(),
            Some(PendingAction::Danger { action_index, typed }) => action_index < self.actions@.len()
                && typed@.len() <= token().len(),
            None => true,
        }
    }

    /// A dashboard on a first snapshot and a catalogue, on the overview tab
    /// with both cursors at the top.
    pub fn new(snapshot: Snapshot, actions: Vec<DashboardAction>) -> (r: App)
        ensures
            r.wf(),
            r.snapshot == snapshot,
            r.actions == actions,
            r.selected_bot == 0,
            r.selected_action == 0,
            r.tab == Tab::Overview,
            r.last_output@ == "Ready."@,
            r.pending_action is None,
    {
        proof { reveal_strlit("Ready."); }
        App {
            snapshot,
            selected_bot: 0,
            selected_action: 0,
            tab: Tab::Overview,
            last_output: String::from_str("Ready."),
            actions,
            pending_action: None,
        }
    }

    /// Moves the bot cursor down, wrapping past the last bot.
    pub fn next_bot(&mut self)
        requires
            old(self).wf(),
        ensures
            final(self).wf(),
            final(self).snapshot == old(self).snapshot,
            final(self).actions == old(self).actions,
            final(self).control() == (Control {
                selected_bot: next_index(old(self).selected_bot as nat, old(self).snapshot.bots@.len()),
                ..old(self).control()
            }),
    {
        let n = self.snapshot.bots.len();
        if n == 0 {
            self.selected_bot = 0;
            return;
        }
        self.selected_bot = (self.selected_bot + 1) % n;
    }

    /// Moves the bot cursor up, wrapping before the first bot.
    pub fn prev_bot(&mut self)
        requires
            old(self).wf(),
        ensures
            final(self).wf(),
            final(self).snapshot == old(self).snapshot,
            final(self).actions == old(self).actions,
            final(self).control() == (Control {
                selected_bot: prev_index(old(self).selected_bot as nat, old(self).snapshot.bots@.len()),
                ..old(self).control()
            }),
    {
        let n = self.snapshot.bots.len();
        if n == 0 {
            self.selected_bot = 0;
            return;
        }
        self.selected_bot = if self.selected_bot == 0 { n - 1 } else { self.selected_bot - 1 };
    }

    /// Moves the action cursor down, wrapping past the last action.
    pub fn next_action(&mut self)
        requires
            old(self).wf(),
        ensures
            final(self).wf(),
            final(self).snapshot == old(self).snapshot,
            final(self).actions == old(self).actions,
            final(self).control() == (Control {
                selected_action: next_index(old(self).selected_action as nat, old(self).actions@.len()),
                ..old(self).control()
            }),
    {
        let n = self.actions.len();
        if n == 0 {
            self.selected_action = 0;
            return;
        }
        self.selected_action = (self.selected_action + 1) % n;
    }

    /// Moves the action cursor up, wrapping before the first action.
    pub fn prev_action(&mut self)
        requires
            old(self).wf(),
        ensures
            final(self).wf(),
            final(self).snapshot == old(self).snapshot,
            final(self).actions == old(self).actions,
            final(self).control() == (Control {
                selected_action: prev_index(old(self).selected_action as nat, old(self).actions@.len()),
                ..old(self).control()
            }),
    {
        let n = self.actions.len();
        if n == 0 {
            self.selected_action = 0;
            return;
        }
        self.selected_action = if self.selected_action == 0 { n - 1 } else { self.selected_action - 1 };
    }

    /// Switches to the next tab of the ring.
    pub fn next_tab(&mut self)
        requires
            old(self).wf(),
        ensures
            final(self).wf(),
            final(self).snapshot == old(self).snapshot,
            final(self).actions == old(self).actions,
            final(self).control() == (Control { tab: tab_after(old(self).tab), ..old(self).control() }),
    {
        self.tab = match self.tab {
            Tab::Overview => Tab::BotDetail,
            Tab::BotDetail => Tab::Scripts,
            Tab::Scripts => Tab::Alerts,
            Tab::Alerts => Tab::Overview,
        };
    }

    /// Switches to the previous tab of the ring.
    pub fn prev_tab(&mut self)
        requires
            old(self).wf(),
        ensures
            final(self).wf(),
            final(self).snapshot == old(self).snapshot,
            final(self).actions == old(self).actions,
            final(self).control() == (Control { tab: tab_before(old(self).tab), ..old(self).control() }),
    {
        self.tab = match self.tab {
            Tab::Overview => Tab::Alerts,
            Tab::BotDetail => Tab::Overview,
            Tab::Scripts => Tab::BotDetail,
            Tab::Alerts => Tab::Scripts,
        };
    }

    /// Handles the run input: runs a safe action at once, and arms a
    /// confirmation for the others.
    pub fn run_selected_action(&mut self) -> (r: Effect)
        requires
            old(self).wf(),
        ensures
            final(self).wf(),
            final(self).snapshot == old(self).snapshot,
            final(self).actions == old(self).actions,
            (final(self).control(), r) == dispatch_step(old(self).control(), risks_of(old(self).actions@)),
    {
        let n = self.actions.len();
        if n == 0 {
            proof { reveal_strlit("No actions configured."); }
            self.last_output = String::from_str("No actions configured.");
            return Effect::Stay;
        }
        self.selected_action = self.selected_action % n;
        let index = self.selected_action;
        match self.actions[index].risk {
            Risk::Safe => Effect::Run(index),
            Risk::Confirm => {
                self.pending_action = Some(PendingAction::Confirm { action_index: index });
                Effect::Stay
            },
            Risk::Danger => {
                self.pending_action = Some(PendingAction::Danger { action_index: index, typed: String::new() });
                Effect::Stay
            },
        }
    }

    /// Handles an input while a confirmation is pending.
    pub fn handle_pending_key(&mut self, key: Key) -> (r: Effect)
        requires
            old(self).wf(),
            old(self).pending_action is Some,
        ensures
            final(self).wf(),
            final(self).snapshot == old(self).snapshot,
            final(self).actions == old(self).actions,
            (final(self).control(), r) == step(
                old(self).control(),
                old(self).snapshot.bots@.len(),
                risks_of(old(self).actions@),
                key,
            ),
    {
        proof {
            reveal_strlit("DELETE");
            reveal_strlit("Action cancelled.");
            reveal_strlit("Danger action cancelled.");
            reveal_strlit("Confirmation token mismatch. Type DELETE and press Enter.");
        }
        match &self.pending_action {
            Some(PendingAction::Confirm { action_index }) => {
                let index = *action_index;
                match key {
                    Key::Char('y') | Key::Char('Y') => {
                        self.pending_action = None;
                        Effect::Run(index)
                    },
                    Key::Char('n') | Key::Char('N') | Key::Esc => {
                        self.pending_action = None;
                        self.last_output = String::from_str("Action cancelled.");
                        Effect::Stay
                    },
                    _ => Effect::Stay,
                }
            },
            Some(PendingAction::Danger { action_index, typed }) => {
                let index = *action_index;
                match key {
                    Key::Esc => {
                        self.pending_action = None;
                        self.last_output = String::from_str("Danger action cancelled.");
                        Effect::Stay
                    },
                    Key::Backspace => {
                        let mut t = typed.clone();
                        let _ = pop_char(&mut t);
                        self.pending_action = Some(PendingAction::Danger { action_index: index, typed: t });
                        Effect::Stay
                    },
                    Key::Enter => {
                        let expected = String::from_str(DANGER_CONFIRM_TOKEN);
                        if *typed == expected {
                            self.pending_action = None;
                            Effect::Run(index)
                        } else {
                            self.last_output = String::from_str(
                                "Confirmation token mismatch. Type DELETE and press Enter.",
                            );
                            Effect::Stay
                        }
                    },
                    Key::Char(c) => {
                        if is_alnum(c) && typed.unicode_len() < DANGER_CONFIRM_TOKEN.unicode_len() {
                            let mut t = typed.clone();
                            push_char(&mut t, upper_ascii(c));
                            self.pending_action = Some(PendingAction::Danger { action_index: index, typed: t });
                        }
                        Effect::Stay
                    },
                    _ => Effect::Stay,
                }
            },
            None => Effect::Stay,
        }
    }

    /// Handles one input: a pending confirmation takes it; otherwise it
    /// quits, asks for a refresh, moves a cursor or the tab, or runs the
    /// selected action.
    pub fn handle_key(&mut self, key: Key) -> (r: Effect)
        requires
            old(self).wf(),
        ensures
            final(self).wf(),
            final(self).snapshot == old(self).snapshot,
            final(self).actions == old(self).actions,
            (final(self).control(), r) == step(
                old(self).control(),
                old(self).snapshot.bots@.len(),
                risks_of(old(self).actions@),
                key,
            ),
    {
        if self.pending_action.is_some() {
            return self.handle_pending_key(key);
        }
        match key {
            Key::Char('q') => Effect::Quit,
            Key::Char('r') => Effect::Refresh,
            Key::Down | Key::Char('j') => {
                if self.tab == Tab::Scripts {
                    self.next_action();
                } else {
                    self.next_bot();
                }
                Effect::Stay
            },
            Key::Up | Key::Char('k') => {
                if self.tab == Tab::Scripts {
                    self.prev_action();
                } else {
                    self.prev_bot();
                }
                Effect::Stay
            },
            Key::Right | Key::Tab => {
                self.next_tab();
                Effect::Stay
            },
            Key::Left => {
                self.prev_tab();
                Effect::Stay
            },
            Key::Char('x') => self.run_selected_action(),
            _ => Effect::Stay,
        }
    }

    /// Takes a freshly built snapshot: on `Ok` it replaces the stored one,
    /// brings the bot cursor back into range, and with `announce` says so in
    /// the output; on `Err` nothing changes and the error is handed back.
    pub fn reload_snapshot(&mut self, loaded: Result<Snapshot, String>, announce: bool) -> (r: Result<(), String>)
        requires
            old(self).wf(),
        ensures
            final(self).wf(),
            final(self).actions == old(self).actions,
            final(self).selected_action == old(self).selected_action,
            final(self).tab == old(self).tab,
            final(self).pending_action == old(self).pending_action,
            loaded matches Err(e) ==> r == Err::<(), String>(e) && *final(self) == *old(self),
            loaded matches Ok(s) ==> (r is Ok
                && final(self).snapshot == s
                && final(self).selected_bot as nat == clamp_index(old(self).selected_bot as nat, s.bots@.len())
                && final(self).last_output@ == (if announce { refreshed_text() } else { old(self).last_output@ })),
    {
        match loaded {
            Ok(s) => {
                self.snapshot = s;
                let n = self.snapshot.bots.len();
                if n == 0 {
                    self.selected_bot = 0;
                } else if self.selected_bot > n - 1 {
                    self.selected_bot = n - 1;
                }
                if announce {
                    proof { reveal_strlit("Refreshed status data."); }
                    self.last_output = String::from_str("Refreshed status data.");
                }
                Ok(())
            },
            Err(e) => Err(e),
        }
    }

    /// The refresh input's work, once the snapshot has been rebuilt: a new
    /// snapshot is taken and announced; a failure becomes the output and
    /// leaves the stored snapshot as it was.
    pub fn refresh(&mut self, loaded: Result<Snapshot, String>)
        requires
            old(self).wf(),
        ensures
            final(self).wf(),
            final(self).actions == old(self).actions,
            final(self).selected_action == old(self).selected_action,
            final(self).tab == old(self).tab,
            final(self).pending_action == old(self).pending_action,
            loaded matches Err(e) ==> (final(self).snapshot == old(self).snapshot
                && final(self).selected_bot == old(self).selected_bot
                && final(self).last_output@ == e@),
            loaded matches Ok(s) ==> (final(self).snapshot == s
                && final(self).selected_bot as nat == clamp_index(old(self).selected_bot as nat, s.bots@.len())
                && final(self).last_output@ == refreshed_text()),
    {
        match self.reload_snapshot(loaded, true) {
            Ok(()) => {},
            Err(e) => {
                self.last_output = e;
            },
        }
    }

    /// The periodic refresh's work, once the snapshot has been rebuilt: a
    /// new snapshot is taken silently; a failure is reported in the output.
    pub fn tick(&mut self, loaded: Result<Snapshot, String>)
        requires
            old(self).wf(),
        ensures
            final(self).wf(),
            final(self).actions == old(self).actions,
            final(self).selected_action == old(self).selected_action,
            final(self).tab == old(self).tab,
            final(self).pending_action == old(self).pending_action,
            loaded matches Err(e) ==> (final(self).snapshot == old(self).snapshot
                && final(self).selected_bot == old(self).selected_bot
                && final(self).last_output@ == auto_refresh_failed_prefix() + e@),
            loaded matches Ok(s) ==> (final(self).snapshot == s
                && final(self).selected_bot as nat == clamp_index(old(self).selected_bot as nat, s.bots@.len())
                && final(self).last_output@ == old(self).last_output@),
    {
        match self.reload_snapshot(loaded, false) {
            Ok(()) => {},
            Err(e) => {
                proof { reveal_strlit("Auto-refresh failed: "); }
                self.last_output = join("Auto-refresh failed: ", e.as_str());
            },
        }
    }

    /// Folds the report of a finished action into the output. Whatever the
    /// report, the caller then rebuilds the snapshot and hands it to
    /// `reload_snapshot` without announcing it, so that the report stays.
    pub fn finish_action(&mut self, report: Result<String, String>)
        requires
            old(self).wf(),
        ensures
            final(self).wf(),
            final(self).snapshot == old(self).snapshot,
            final(self).actions == old(self).actions,
            final(self).selected_bot == old(self).selected_bot,
            final(self).selected_action == old(self).selected_action,
            final(self).tab == old(self).tab,
            final(self).pending_action == old(self).pending_action,
            report matches Ok(t) ==> final(self).last_output@ == t@,
            report matches Err(e) ==> final(self).last_output@ == e@,
    {
        match report {
            Ok(t) => {
                self.last_output = t;
            },
            Err(e) => {
                self.last_output = e;
            },
        }
    }

    /// The highlighted bot row: none where there are no bots.
    pub fn bot_selection(&self) -> (r: Option<usize>)
        ensures
            self.snapshot.bots@.len() == 0 ==> r is None,
            self.snapshot.bots@.len() > 0 ==> r == Some(self.selected_bot),
    {
        if self.snapshot.bots.len() == 0 { None } else { Some(self.selected_bot) }
    }

    /// The highlighted action row: none where there are no actions.
    pub fn action_selection(&self) -> (r: Option<usize>)
        ensures
            self.actions@.len() == 0 ==> r is None,
            self.actions@.len() > 0 ==> r == Some(self.selected_action),
    {
        if self.actions.len() == 0 { None } else { Some(self.selected_action) }
    }

    /// The selected bot, if there is one.
    pub fn selected_bot(&self) -> (r: Option<&BotStatus>)
        ensures
            self.selected_bot < self.snapshot.bots@.len() ==> r == Some(&self.snapshot.bots@[self.selected_bot as int]),
            self.selected_bot >= self.snapshot.bots@.len() ==> r is None,
    {
        if self.selected_bot < self.snapshot.bots.len() {
            Some(&self.snapshot.bots[self.selected_bot])
        } else {
            None
        }
    }
}

} // verus!
