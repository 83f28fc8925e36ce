//! Events of the loop and what each one does to the state.

use vstd::prelude::*;
use crate::state::{AppState, StateModel};

verus! {

/// Milliseconds between two ticks.
pub const TICK_INTERVAL_MS: u64 = 200;

/// A decoded key.
#[derive(Clone, Copy, Debug, PartialEq, Eq, Structural)]
pub enum Key {
    /// A character key.
    Char(char),
    /// Any other key.
    Other,
}

/// What wakes the loop.
#[derive(Clone, Copy, Debug, PartialEq, Eq, Structural)]
pub enum Event {
    /// A key was pressed.
    Input(Key),
    /// The ticker fired.
    Tick,
}

/// What the loop does after an event.
#[derive(Clone, Copy, Debug, PartialEq, Eq, Structural)]
pub enum Action {
    /// Render the state and wait for the next event.
    Redraw,
    /// Leave the loop and restore the cursor.
    Quit,
    /// The loop was left before: the event is not processed.
    Ignore,
}

/// The key that leaves the loop.
pub open spec fn quit_event() -> Event {
    Event::Input(Key::Char('q'))
}

/// The key that asks for a refresh.
pub open spec fn refresh_event() -> Event {
    Event::Input(Key::Char('r'))
}

/// State and action after one event. Once the loop was left, no event
/// changes anything. While it runs, the quit key leaves it, the refresh key
/// sets the pending flag, and every event but the quit key redraws.
pub open spec fn spec_handle(s: StateModel, e: Event) -> (StateModel, Action) {
    if !s.running {
        (s, Action::Ignore)
    } else if e == quit_event() {
        (StateModel { running: false, ..s }, Action::Quit)
    } else if e == refresh_event() {
        (StateModel { needs_refresh: true, ..s }, Action::Redraw)
    } else {
        (s, Action::Redraw)
    }
}

/// State and actions after a sequence of events, handled in order.
pub open spec fn spec_run(s: StateModel, events: Seq<Event>) -> (StateModel, Seq<Action>)
    decreases events.len(),
{
    if events.len() == 0 {
        (s, Seq::empty())
    } else {
        let before = spec_run(s, events.drop_last());
        let step = spec_handle(before.0, events.last());
        (step.0, before.1.push(step.1))
    }
}

impl AppState {
    /// Handles one event and says what the loop does next.
    pub fn handle_event(&mut self, event: Event) -> (action: Action)
        ensures
            (final(self)@, action) == spec_handle(old(self)@, event),
            old(self)@.wf() ==> final(self)@.wf(),
    {
        if !self.running {
            return Action::Ignore;
        }
        match event {
            Event::Input(Key::Char(c)) => {
                if c == 'q' {
                    self.running = false;
                    Action::Quit
                } else if c == 'r' {
                    self.needs_refresh = true;
                    Action::Redraw
                } else {
                    Action::Redraw
                }
            },
            Event::Input(Key::Other) => Action::Redraw,
            Event::Tick => Action::Redraw,
        }
    }
}

/// Events change nothing of the state but the pending flag and whether the
/// loop runs: head, branches, sections and the cached size stay as they
/// were.
pub proof fn law_events_keep_derived_state(s: StateModel, events: Seq<Event>)
    ensures
        spec_run(s, events).0 == (StateModel {
            needs_refresh: spec_run(s, events).0.needs_refresh,
            running: spec_run(s, events).0.running,
            ..s
        }),
    decreases events.len(),
{
    if events.len() > 0 {
        law_events_keep_derived_state(s, events.drop_last());
    }
}

/// While no quit key comes, the loop keeps running and every event
/// redraws.
pub proof fn lemma_run_without_quit(s: StateModel, events: Seq<Event>)
    requires
        s.running,
        forall|j: int| 0 <= j < events.len() ==> events[j] != quit_event(),
    ensures
        spec_run(s, events).0.running,
        spec_run(s, events).1.len() == events.len(),
        forall|j: int| 0 <= j < events.len() ==> spec_run(s, events).1[j] == Action::Redraw,
    decreases events.len(),
{
    if events.len() > 0 {
        lemma_run_without_quit(s, events.drop_last());
    }
}

/// The first quit key ends the loop: the events before it redraw, it alone
/// gives `Quit` (so the cursor is restored once), and no later event is
/// processed or changes the state.
pub proof fn law_quit_once(s: StateModel, events: Seq<Event>, i: int)
    requires
        s.running,
        0 <= i < events.len(),
        events[i] == quit_event(),
        forall|j: int| 0 <= j < i ==> events[j] != quit_event(),
    ensures
        spec_run(s, events).1.len() == events.len(),
        spec_run(s, events).1[i] == Action::Quit,
        forall|j: int| 0 <= j < i ==> spec_run(s, events).1[j] == Action::Redraw,
        forall|j: int| i < j < events.len() ==> spec_run(s, events).1[j] == Action::Ignore,
        !spec_run(s, events).0.running,
        spec_run(s, events).0 == spec_run(s, events.take(i + 1)).0,
    decreases events.len(),
{
    let front = events.drop_last();
    if events.len() == i + 1 {
        lemma_run_without_quit(s, front);
        assert(events.take(i + 1) =~= events);
    } else {
        law_quit_once(s, front, i);
        assert(front.take(i + 1) =~= events.take(i + 1));
    }
}

/// A refresh becomes pending only by request: while none is pending and no
/// refresh key comes, none is pending afterwards.
pub proof fn law_refresh_only_on_request(s: StateModel, events: Seq<Event>)
    requires
        !s.needs_refresh,
        forall|j: int| 0 <= j < events.len() ==> events[j] != refresh_event(),
    ensures
        !spec_run(s, events).0.needs_refresh,
    decreases events.len(),
{
    if events.len() > 0 {
        law_refresh_only_on_request(s, events.drop_last());
    }
}

/// While the loop runs, the refresh key makes a refresh pending, and no
/// other event changes whether one is.
pub proof fn law_refresh_request(s: StateModel, e: Event)
    requires
        s.running,
    ensures
        e == refresh_event() ==> spec_handle(s, e).0.needs_refresh,
        e != refresh_event() ==> spec_handle(s, e).0.needs_refresh == s.needs_refresh,
{
}

} // verus!
