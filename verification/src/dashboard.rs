//! The dashboard's event-driven state machine. One consumer loop feeds
//! every received event through `handle_event`; the function answers with
//! the next state and the single action the loop must carry out before it
//! draws the next frame and waits again. Helper processes are dispatched
//! fire-and-forget: the state is already final when the action is handed
//! out, so the loop never blocks on their completion.

use vstd::prelude::*;

verus! {

use crate::menu::MenuItem;
use crate::menu::menu_target;
use crate::selection::wrap_next;
use crate::selection::wrap_prev;
use crate::selection::down_n;
use crate::selection::up_n;
use crate::selection::select_down;
use crate::selection::select_up;
use crate::selection::lemma_down_n_in_range;
use crate::selection::lemma_up_n_in_range;
use crate::selection::lemma_selection_cycle;
use crate::selection::lemma_up_down_inverse;

/// A key the dashboard understands: a printable character, one of the
/// two selection-movement keys, or any other key (silently ignored).
#[derive(Copy, Clone, PartialEq, Eq, Structural, Debug)]
pub enum Key {
    Char(char),
    Up,
    Down,
    Other,
}

/// One event handed to the consumer loop: a key press forwarded by the
/// producer, or a periodic redraw tick.
#[derive(Copy, Clone, PartialEq, Eq, Structural, Debug)]
pub enum Event {
    Input(Key),
    Tick,
}

/// The remote mutation a dispatched task-control run shall request.
#[derive(Copy, Clone, PartialEq, Eq, Structural, Debug)]
pub enum TaskAction {
    Complete,
    Delete,
}

/// What the surrounding loop must do after an event: nothing beyond the
/// redraw, stop, or spawn one of the two helper processes detached. A
/// task-control run carries the 1-based external identifier it targets.
#[derive(Copy, Clone, PartialEq, Eq, Structural, Debug)]
pub enum Action {
    Continue,
    Quit,
    RunUpdater,
    RunTaskControl(TaskAction, usize),
}

/// The lengths of the three cache collections, re-read from disk at the
/// moment the event is handled and trusted for exactly that one event.
#[derive(Copy, Clone, PartialEq, Eq, Structural, Debug)]
pub struct CacheLengths {
    pub tasks: usize,
    pub comments: usize,
    pub projects: usize,
}

/// The dashboard's whole mutable state: the active menu entry and one
/// selection index per list view. Selections start at the first record,
/// move only on explicit navigation keys, and are never reset by a view
/// switch or a dispatched mutation.
#[derive(Copy, Clone, PartialEq, Eq, Structural, Debug)]
pub struct Dashboard {
    pub active: MenuItem,
    pub tasks_selected: usize,
    pub comments_selected: usize,
    pub projects_selected: usize,
}

/// Whether a menu entry is backed by one of the three record lists.
pub open spec fn is_list_view(m: MenuItem) -> bool {
    m == MenuItem::Monitor || m == MenuItem::Comments || m == MenuItem::Projects
}

/// The length of the collection behind the active view; a view without a
/// list behind it counts as empty.
pub open spec fn active_len(d: Dashboard, lens: CacheLengths) -> nat {
    match d.active {
        MenuItem::Monitor => lens.tasks as nat,
        MenuItem::Comments => lens.comments as nat,
        MenuItem::Projects => lens.projects as nat,
        _ => 0,
    }
}

/// The selection index of the active view; a view without a list behind
/// it reads as the first position.
pub open spec fn active_selection(d: Dashboard) -> nat {
    match d.active {
        MenuItem::Monitor => d.tasks_selected as nat,
        MenuItem::Comments => d.comments_selected as nat,
        MenuItem::Projects => d.projects_selected as nat,
        _ => 0,
    }
}

/// The state with the active view's selection moved to `i`; on a view
/// without a list the state is unchanged.
pub open spec fn with_active_selection(d: Dashboard, i: nat) -> Dashboard {
    match d.active {
        MenuItem::Monitor => (Dashboard { tasks_selected: i as usize, ..d }),
        MenuItem::Comments => (Dashboard { comments_selected: i as usize, ..d }),
        MenuItem::Projects => (Dashboard { projects_selected: i as usize, ..d }),
        _ => d,
    }
}

/// The state and action after one character key. A navigation character
/// switches the active view and touches nothing else; `s` stops the
/// loop; `u` dispatches an updater run from any view; `f` and `d`
/// dispatch a task-control run against the 1-based position of the
/// selected task, and only while the monitor view is active. Every other
/// character is ignored.
pub open spec fn step_char(d: Dashboard, c: char) -> (Dashboard, Action) {
    match menu_target(c) {
        Some(m) => ((Dashboard { active: m, ..d }), Action::Continue),
        None => if c == 's' {
            (d, Action::Quit)
        } else if c == 'u' {
            (d, Action::RunUpdater)
        } else if c == 'f' && d.active == MenuItem::Monitor {
            (d, Action::RunTaskControl(TaskAction::Complete, (d.tasks_selected + 1) as usize))
        } else if c == 'd' && d.active == MenuItem::Monitor {
            (d, Action::RunTaskControl(TaskAction::Delete, (d.tasks_selected + 1) as usize))
        } else {
            (d, Action::Continue)
        },
    }
}

/// The state after the down key: the active view's selection takes one
/// downward wraparound step over its current collection length.
pub open spec fn step_down(d: Dashboard, lens: CacheLengths) -> Dashboard {
    with_active_selection(d, wrap_next(active_selection(d), active_len(d, lens)))
}

/// The state after the up key: the active view's selection takes one
/// upward wraparound step over its current collection length.
pub open spec fn step_up(d: Dashboard, lens: CacheLengths) -> Dashboard {
    with_active_selection(d, wrap_prev(active_selection(d), active_len(d, lens)))
}

/// The state and action after one key press.
pub open spec fn step_key(d: Dashboard, key: Key, lens: CacheLengths) -> (Dashboard, Action) {
    match key {
        Key::Char(c) => step_char(d, c),
        Key::Down => (step_down(d, lens), Action::Continue),
        Key::Up => (step_up(d, lens), Action::Continue),
        Key::Other => (d, Action::Continue),
    }
}

/// The state after `n` presses of the down key, the collection lengths
/// standing still meanwhile.
pub open spec fn press_down_n(d: Dashboard, lens: CacheLengths, n: nat) -> Dashboard
    decreases n,
{
    if n == 0 {
        d
    } else {
        step_down(press_down_n(d, lens, (n - 1) as nat), lens)
    }
}

/// The state after `n` presses of the up key, the collection lengths
/// standing still meanwhile.
pub open spec fn press_up_n(d: Dashboard, lens: CacheLengths, n: nat) -> Dashboard
    decreases n,
{
    if n == 0 {
        d
    } else {
        step_up(press_up_n(d, lens, (n - 1) as nat), lens)
    }
}

proof fn lemma_press_down_n_tracks(d: Dashboard, lens: CacheLengths, n: nat)
    requires
        is_list_view(d.active),
        active_selection(d) < active_len(d, lens),
    ensures
        press_down_n(d, lens, n) == with_active_selection(
            d,
            down_n(active_selection(d), active_len(d, lens), n),
        ),
    decreases n,
{
    if n > 0 {
        lemma_press_down_n_tracks(d, lens, (n - 1) as nat);
        lemma_down_n_in_range(active_selection(d), active_len(d, lens), (n - 1) as nat);
    }
}

proof fn lemma_press_up_n_tracks(d: Dashboard, lens: CacheLengths, n: nat)
    requires
        is_list_view(d.active),
        active_selection(d) < active_len(d, lens),
    ensures
        press_up_n(d, lens, n) == with_active_selection(
            d,
            up_n(active_selection(d), active_len(d, lens), n),
        ),
    decreases n,
{
    if n > 0 {
        lemma_press_up_n_tracks(d, lens, (n - 1) as nat);
        lemma_up_n_in_range(active_selection(d), active_len(d, lens), (n - 1) as nat);
    }
}

/// Law: with a list view active over `L >= 1` records and its selection
/// on the first one, exactly `L` presses of the down key return the
/// whole state — selection included — to where it started, and so do
/// `L` presses of the up key.
pub proof fn lemma_view_selection_cycle(d: Dashboard, lens: CacheLengths)
    requires
        is_list_view(d.active),
        active_selection(d) == 0,
        1 <= active_len(d, lens),
    ensures
        press_down_n(d, lens, active_len(d, lens)) == d,
        press_up_n(d, lens, active_len(d, lens)) == d,
{
    let len = active_len(d, lens);
    lemma_press_down_n_tracks(d, lens, len);
    lemma_press_up_n_tracks(d, lens, len);
    lemma_selection_cycle(len);
}

/// Law: with a list view active and its selection inside the current
/// collection's range, pressing up then down — or down then up —
/// returns the whole state to where it stood.
pub proof fn lemma_up_down_restore(d: Dashboard, lens: CacheLengths)
    requires
        is_list_view(d.active),
        active_selection(d) < active_len(d, lens),
    ensures
        step_down(step_up(d, lens), lens) == d,
        step_up(step_down(d, lens), lens) == d,
{
    lemma_up_down_inverse(active_selection(d), active_len(d, lens));
}

/// Law: a navigation key only changes which panel is active; every
/// selection index, those of the inactive views included, is left
/// exactly as it was, and nothing is dispatched.
pub proof fn lemma_navigation_preserves_selection(d: Dashboard, c: char, lens: CacheLengths)
    requires
        menu_target(c) is Some,
    ensures
        ({
            let (d2, a) = step_key(d, Key::Char(c), lens);
            &&& d2.tasks_selected == d.tasks_selected
            &&& d2.comments_selected == d.comments_selected
            &&& d2.projects_selected == d.projects_selected
            &&& a == Action::Continue
        }),
{
}

/// Law: while the monitor view is active, the complete and delete keys
/// dispatch a task-control run against the 1-based position of the
/// selected task — identifier `selection + 1` — and leave the whole
/// dashboard state untouched. The dashboard itself never rewrites a
/// cache collection: the only effect is the handed-out action.
pub proof fn lemma_monitor_dispatch(d: Dashboard, lens: CacheLengths)
    requires
        d.wf(),
        d.active == MenuItem::Monitor,
    ensures
        step_key(d, Key::Char('f'), lens) == (
            d,
            Action::RunTaskControl(TaskAction::Complete, (d.tasks_selected + 1) as usize),
        ),
        step_key(d, Key::Char('d'), lens) == (
            d,
            Action::RunTaskControl(TaskAction::Delete, (d.tasks_selected + 1) as usize),
        ),
{
}

/// Law: the refresh key dispatches an updater run from every view and
/// leaves the state untouched, so the loop is immediately free to draw
/// the next frame; the run itself is spawned detached and never awaited.
pub proof fn lemma_refresh_dispatch(d: Dashboard, lens: CacheLengths)
    ensures
        step_key(d, Key::Char('u'), lens) == (d, Action::RunUpdater),
{
}

impl Dashboard {
    /// Every selection index stays strictly below the machine maximum,
    /// so the 1-based identifier of a selected record always fits.
    pub open spec fn wf(self) -> bool {
        self.tasks_selected < usize::MAX && self.comments_selected < usize::MAX
            && self.projects_selected < usize::MAX
    }

    /// The start state: home panel, every selection at the first record.
    pub fn new() -> (d: Dashboard)
        ensures
            d.active == MenuItem::Home,
            d.tasks_selected == 0,
            d.comments_selected == 0,
            d.projects_selected == 0,
            d.wf(),
    {
        Dashboard { active: MenuItem::Home, tasks_selected: 0, comments_selected: 0, projects_selected: 0 }
    }

    /// Handle one key press: move to the state `step_key` names and hand
    /// back the action the loop must carry out.
    pub fn handle_key(&mut self, key: Key, lens: CacheLengths) -> (a: Action)
        requires
            old(self).wf(),
        ensures
            (*final(self), a) == step_key(*old(self), key, lens),
            final(self).wf(),
    {
        match key {
            Key::Char(c) => {
                if c == 'i' {
                    self.active = MenuItem::Home;
                    Action::Continue
                } else if c == 't' {
                    self.active = MenuItem::Monitor;
                    Action::Continue
                } else if c == 'c' {
                    self.active = MenuItem::Comments;
                    Action::Continue
                } else if c == 'p' {
                    self.active = MenuItem::Projects;
                    Action::Continue
                } else if c == 'l' {
                    self.active = MenuItem::License;
                    Action::Continue
                } else if c == 's' {
                    Action::Quit
                } else if c == 'u' {
                    Action::RunUpdater
                } else if c == 'f' && matches!(self.active, MenuItem::Monitor) {
                    Action::RunTaskControl(TaskAction::Complete, self.tasks_selected + 1)
                } else if c == 'd' && matches!(self.active, MenuItem::Monitor) {
                    Action::RunTaskControl(TaskAction::Delete, self.tasks_selected + 1)
                } else {
                    Action::Continue
                }
            },
            Key::Down => {
                match self.active {
                    MenuItem::Monitor => {
                        self.tasks_selected = select_down(self.tasks_selected, lens.tasks);
                    },
                    MenuItem::Comments => {
                        self.comments_selected = select_down(self.comments_selected, lens.comments);
                    },
                    MenuItem::Projects => {
                        self.projects_selected = select_down(self.projects_selected, lens.projects);
                    },
                    _ => {},
                }
                Action::Continue
            },
            Key::Up => {
                match self.active {
                    MenuItem::Monitor => {
                        self.tasks_selected = select_up(self.tasks_selected, lens.tasks);
                    },
                    MenuItem::Comments => {
                        self.comments_selected = select_up(self.comments_selected, lens.comments);
                    },
                    MenuItem::Projects => {
                        self.projects_selected = select_up(self.projects_selected, lens.projects);
                    },
                    _ => {},
                }
                Action::Continue
            },
            Key::Other => Action::Continue,
        }
    }

    /// Handle one event: a key press steps the machine, a tick changes
    /// nothing and only lets the loop draw a fresh frame.
    pub fn handle_event(&mut self, ev: Event, lens: CacheLengths) -> (a: Action)
        requires
            old(self).wf(),
        ensures
            final(self).wf(),
            (match ev {
                Event::Input(k) => (*final(self), a) == step_key(*old(self), k, lens),
                Event::Tick => *final(self) == *old(self) && a == Action::Continue,
            }),
    {
        match ev {
            Event::Input(k) => self.handle_key(k, lens),
            Event::Tick => Action::Continue,
        }
    }
}

} // verus!
