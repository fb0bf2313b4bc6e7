//! The state of the dashboard and the transition function of its render loop.
//!
//! The loop itself waits for events and paints the terminal, which happens
//! outside this crate. What it decides is here: [`App::on_event`] takes the
//! state from one event to the next, and [`run`] says what a whole stream of
//! events leads to.

use vstd::prelude::*;
use crate::cursor::{
    lemma_step_backward, lemma_step_forward, step_backward, step_forward, valid_cursor,
};
use crate::event::{Command, Event, Key};
use crate::job::{Config, Job};
use crate::list::{ListView, StatefulList};

verus! {

/// The two states of the render loop.
#[derive(Clone, Copy, Debug, PartialEq, Eq, Structural)]
pub enum LoopState {
    /// The loop paints the state and waits for the next event.
    Running,
    /// The loop has ended: it reads no event and paints nothing any more.
    Terminated,
}

/// The row of a job: its name, which labels the row, and the job itself.
pub open spec fn row_of(job: Job) -> (String, Job) {
    (job.name, job)
}

/// The rows of the configured jobs, in their order.
pub open spec fn rows_of(jobs: Seq<Job>) -> Seq<(String, Job)> {
    jobs.map_values(|job: Job| row_of(job))
}

/// The state after one event that does not end the loop: the arrows move the
/// cursor, every other key and every tick leave the state as it is.
pub open spec fn after_event<T>(view: ListView<T>, event: Event) -> ListView<T> {
    match event {
        Event::Input(key) => match key.binding() {
            Command::Down => ListView {
                items: view.items,
                selected: step_forward(view.selected, view.items.len()),
            },
            Command::Up => ListView {
                items: view.items,
                selected: step_backward(view.selected, view.items.len()),
            },
            Command::Quit | Command::Other => view,
        },
        Event::Tick => view,
    }
}

/// The state of the dashboard: the list of jobs with its cursor, and nothing
/// else.
pub struct App {
    items: StatefulList<(String, Job)>,
}

impl View for App {
    type V = ListView<(String, Job)>;

    closed spec fn view(&self) -> ListView<(String, Job)> {
        self.items@
    }
}

impl App {
    /// The dashboard of the configured jobs, one row per job in the order of
    /// the configuration, with the first row highlighted. Without jobs no row
    /// is highlighted.
    pub fn new(config: Config) -> (app: App)
        ensures
            app@.items == rows_of(config.job@),
            app@.selected == if config.job@.len() > 0 {
                Some(0nat)
            } else {
                None
            },
    {
        let ghost jobs = config.job@;
        let mut rows: Vec<(String, Job)> = Vec::new();
        for job in it: config.job
            invariant
                it.seq() == jobs,
                rows@ == rows_of(jobs.take(it.index() as int)),
        {
            proof {
                assert(jobs.take(it.index() + 1) == jobs.take(it.index() as int).push(job));
            }
            rows.push((job.name.clone(), job));
        }
        proof {
            assert(jobs.take(jobs.len() as int) == jobs);
        }
        let mut items = StatefulList::with_items(rows);
        items.next();
        App { items }
    }

    /// The hook that every tick calls. No job reports progress yet, so it
    /// leaves the state as it is.
    pub fn update(&mut self)
        ensures
            final(self)@ == old(self)@,
    {
    }

    /// The list of jobs with its cursor.
    pub fn items(&self) -> (items: &StatefulList<(String, Job)>)
        ensures
            items@ == self@,
    {
        &self.items
    }

    /// The job of the highlighted row, which the status panel describes;
    /// `None` when no row is highlighted.
    pub fn selected_job(&self) -> (job: Option<&Job>)
        ensures
            match job {
                Some(job) => self@.selected is Some && self@.selected->0 < self@.items.len()
                    && *job == self@.items[self@.selected->0 as int].1,
                None => self@.selected is None,
            },
    {
        match self.items.selected_item() {
            Some(row) => Some(&row.1),
            None => None,
        }
    }

    /// Takes the dashboard through one event and says how the loop goes on.
    ///
    /// A press of the quit key ends the loop and changes nothing. Everything
    /// else keeps the loop running, and the caller then paints the new state
    /// once: the arrows have moved the cursor, a tick has called
    /// [`App::update`], and any other key has changed nothing.
    pub fn on_event(&mut self, event: Event) -> (state: LoopState)
        ensures
            final(self)@ == after_event(old(self)@, event),
            state == if event.quits() {
                LoopState::Terminated
            } else {
                LoopState::Running
            },
    {
        match event {
            Event::Input(key) => match key.command() {
                Command::Quit => {
                    return LoopState::Terminated;
                },
                Command::Down => {
                    self.items.next();
                },
                Command::Up => {
                    self.items.previous();
                },
                Command::Other => {},
            },
            Event::Tick => {
                self.update();
            },
        }
        LoopState::Running
    }
}

/// What the render loop has come to after a stream of events.
pub struct Run<T> {
    /// The state of the dashboard.
    pub view: ListView<T>,
    /// Whether the loop still runs.
    pub state: LoopState,
    /// The states that the loop has painted, in the order of the paintings.
    pub paintings: Seq<ListView<T>>,
}

/// The render loop as a function of its events. It paints the state it
/// starts with. Then, for every event, it either ends on a press of the quit
/// key, without painting, or takes the state through the event and paints the
/// new state once. After its end it takes no event.
pub open spec fn run<T>(start: ListView<T>, events: Seq<Event>) -> Run<T>
    decreases events.len(),
{
    if events.len() == 0 {
        Run { view: start, state: LoopState::Running, paintings: seq![start] }
    } else {
        let before = run(start, events.drop_last());
        if before.state == LoopState::Terminated {
            before
        } else if events.last().quits() {
            Run { view: before.view, state: LoopState::Terminated, paintings: before.paintings }
        } else {
            let view = after_event(before.view, events.last());
            Run { view, state: LoopState::Running, paintings: before.paintings.push(view) }
        }
    }
}

/// An event never changes the rows, and it leaves a valid cursor valid.
pub proof fn lemma_event_keeps_rows<T>(view: ListView<T>, event: Event)
    ensures
        after_event(view, event).items == view.items,
        valid_cursor(view.selected, view.items.len()) ==> valid_cursor(
            after_event(view, event).selected,
            view.items.len(),
        ),
{
    lemma_step_forward(view.selected, view.items.len());
    lemma_step_backward(view.selected, view.items.len());
}

/// A key that is not bound changes nothing and keeps the loop running, so
/// the loop paints the unchanged state exactly once more.
pub proof fn lemma_unbound_key_is_inert<T>(start: ListView<T>, events: Seq<Event>, key: Key)
    requires
        key.binding() == Command::Other,
    ensures
        !Event::Input(key).quits(),
        after_event(start, Event::Input(key)) == start,
        run(start, events).state == LoopState::Running ==> run(
            start,
            events.push(Event::Input(key)),
        ) == (Run {
            view: run(start, events).view,
            state: LoopState::Running,
            paintings: run(start, events).paintings.push(run(start, events).view),
        }),
{
    let longer = events.push(Event::Input(key));
    assert(longer.drop_last() == events);
    assert(longer.last() == Event::Input(key));
    assert(after_event(run(start, events).view, Event::Input(key)) == run(start, events).view);
}

/// The loop ends on a press of the quit key and on nothing else: it has ended
/// exactly when one of its events was such a press. Ticks alone never end it.
pub proof fn lemma_only_quit_ends_the_loop<T>(start: ListView<T>, events: Seq<Event>)
    ensures
        run(start, events).state == LoopState::Terminated <==> exists|i: int|
            0 <= i < events.len() && (#[trigger] events[i]).quits(),
    decreases events.len(),
{
    if events.len() > 0 {
        let earlier = events.drop_last();
        lemma_only_quit_ends_the_loop(start, earlier);
        if run(start, events).state == LoopState::Terminated {
            if run(start, earlier).state == LoopState::Terminated {
                let i = choose|i: int| 0 <= i < earlier.len() && (#[trigger] earlier[i]).quits();
                assert(events[i].quits());
            } else {
                assert(events[events.len() - 1].quits());
            }
        } else {
            assert forall|i: int| 0 <= i < events.len() implies !(#[trigger] events[i]).quits() by {
                if i < earlier.len() {
                    assert(earlier[i] == events[i]);
                }
            }
        }
    }
}

/// Once the loop has ended, further events change nothing and are not
/// painted.
pub proof fn lemma_nothing_follows_the_end<T>(start: ListView<T>, events: Seq<Event>, more: Seq<Event>)
    requires
        run(start, events).state == LoopState::Terminated,
    ensures
        run(start, events + more) == run(start, events),
    decreases more.len(),
{
    if more.len() == 0 {
        assert(events + more == events);
    } else {
        lemma_nothing_follows_the_end(start, events, more.drop_last());
        assert((events + more).drop_last() == events + more.drop_last());
    }
}

/// While the loop runs it has painted once at its start and once after every
/// event, the last painting shows the current state, and every painting
/// shows the rows that the loop started with.
pub proof fn lemma_one_painting_per_event<T>(start: ListView<T>, events: Seq<Event>)
    ensures
        run(start, events).paintings.len() >= 1,
        run(start, events).paintings[0] == start,
        run(start, events).view.items == start.items,
        forall|j: int|
            0 <= j < run(start, events).paintings.len() ==> (#[trigger] run(
                start,
                events,
            ).paintings[j]).items == start.items,
        run(start, events).state == LoopState::Running ==> {
            &&& run(start, events).paintings.len() == events.len() + 1
            &&& run(start, events).paintings.last() == run(start, events).view
        },
    decreases events.len(),
{
    if events.len() > 0 {
        lemma_one_painting_per_event(start, events.drop_last());
        lemma_event_keeps_rows(run(start, events.drop_last()).view, events.last());
    }
}

/// A dashboard without jobs never highlights a row: every painting, from the
/// first one on, shows no selection, whatever the events are.
pub proof fn lemma_empty_dashboard_shows_no_selection<T>(start: ListView<T>, events: Seq<Event>)
    requires
        start.items.len() == 0,
        start.selected is None,
    ensures
        run(start, events).view == start,
        forall|j: int|
            0 <= j < run(start, events).paintings.len() ==> #[trigger] run(
                start,
                events,
            ).paintings[j] == start,
    decreases events.len(),
{
    if events.len() > 0 {
        lemma_empty_dashboard_shows_no_selection(start, events.drop_last());
    }
}

} // verus!
