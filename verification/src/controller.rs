//! The frame loop controller: the demo state, how events change it, and what
//! one iteration of the loop does.
//!
//! The controller never touches a window or a GPU. The program that owns
//! them drains the window's queue, hands the events to [`Controller::step`],
//! and carries out the frame that comes back: it prints the notices, and
//! either leaves its loop or submits the draws, presents and pauses.

use crate::demo::Demo;
use crate::draw::{clear_color, frame_draws, Draw, Mesh, Pass, Rgba};
use crate::event::{Action, Event, Key};
use vstd::prelude::*;

verus! {

/// Pause after each rendered frame, in milliseconds.
pub const PAUSE_MS: u64 = 100;

/// Where the frame loop stands.
#[derive(Clone, Copy, Debug, PartialEq, Eq, Structural)]
pub enum LoopState {
    /// The loop polls, renders and pauses.
    Running,
    /// The loop has ended. Nothing leads out of this state.
    Terminated,
}

/// What handling one event came to.
#[derive(Clone, Copy, Debug, PartialEq, Eq, Structural)]
pub enum Reaction {
    /// The event changed nothing.
    Ignored,
    /// The demo mode was toggled; the new mode is to be announced.
    Toggled(Demo),
    /// The loop is to end.
    Quit,
}

/// The state of the frame loop.
#[derive(Clone, Copy, Debug, PartialEq, Eq, Structural)]
pub struct Controller {
    /// The active demo mode.
    pub mode: Demo,
    /// Whether the loop is still running.
    pub state: LoopState,
}

/// What the loop does after the events of an iteration are handled.
#[derive(Debug, PartialEq, Eq)]
pub enum Outcome {
    /// Carry out the render pass, present, then pause for `pause_ms`
    /// milliseconds.
    Render { pass: Pass, pause_ms: u64 },
    /// Leave the loop without rendering.
    Stop,
}

/// One iteration of the frame loop.
#[derive(Debug, PartialEq, Eq)]
pub struct Frame {
    /// The modes to announce, one for each toggle, in the order of the
    /// toggles.
    pub notices: Vec<Demo>,
    /// What to do once the notices are out.
    pub outcome: Outcome,
}

impl Outcome {
    /// This is the outcome of an iteration that leaves the loop in the state
    /// `after`: to stop if the loop is terminated, else to render the pass
    /// of the active mode.
    pub open spec fn is_outcome_of(&self, after: Controller) -> bool {
        match *self {
            Outcome::Stop => after.state == LoopState::Terminated,
            Outcome::Render { pass, pause_ms } => {
                &&& after.state == LoopState::Running
                &&& pass.clear == clear_color()
                &&& pass.draws@ == frame_draws(after.mode)
                &&& pause_ms == PAUSE_MS
            },
        }
    }
}

impl Frame {
    /// This is the frame of the iteration that starts in the state `before`
    /// and polls `events`.
    pub open spec fn is_frame_of(&self, before: Controller, events: Seq<Event>) -> bool {
        &&& self.notices@ == before.step_notices(events)
        &&& self.outcome.is_outcome_of(before.after_step(events))
    }
}

/// A recording of polls, each batch as the sequence of its events.
pub open spec fn polls_of(batches: Seq<Vec<Event>>) -> Seq<Seq<Event>> {
    batches.map_values(|batch: Vec<Event>| batch@)
}

/// How many events of a batch the loop handles: all of them up to and
/// including the first that asks to quit.
pub open spec fn handled_len(events: Seq<Event>) -> nat
    decreases events.len(),
{
    if events.len() == 0 {
        0
    } else if events[0].is_quit() {
        1
    } else {
        1 + handled_len(events.drop_first())
    }
}

/// The events of a batch that the loop handles.
pub open spec fn handled_events(events: Seq<Event>) -> Seq<Event> {
    events.take(handled_len(events) as int)
}

/// How many of the events ask for a toggle.
pub open spec fn toggle_count(events: Seq<Event>) -> nat
    decreases events.len(),
{
    if events.len() == 0 {
        0
    } else if events.last().is_toggle() {
        toggle_count(events.drop_last()) + 1
    } else {
        toggle_count(events.drop_last())
    }
}

impl Controller {
    /// The state the loop starts in.
    pub open spec fn initial() -> Controller {
        Controller { mode: Demo::Direct, state: LoopState::Running }
    }

    /// The state after one event is handled.
    pub open spec fn handled(self, event: Event) -> Controller {
        if event.is_quit() {
            Controller { mode: self.mode, state: LoopState::Terminated }
        } else if event.is_toggle() {
            Controller { mode: self.mode.toggled(), state: self.state }
        } else {
            self
        }
    }

    /// What handling one event comes to.
    pub open spec fn reaction(self, event: Event) -> Reaction {
        if event.is_quit() {
            Reaction::Quit
        } else if event.is_toggle() {
            Reaction::Toggled(self.mode.toggled())
        } else {
            Reaction::Ignored
        }
    }

    /// The state after each of the events is handled, in order.
    pub open spec fn after_events(self, events: Seq<Event>) -> Controller
        decreases events.len(),
    {
        if events.len() == 0 {
            self
        } else {
            self.after_events(events.drop_last()).handled(events.last())
        }
    }

    /// The modes announced while the events are handled, in order.
    pub open spec fn notices(self, events: Seq<Event>) -> Seq<Demo>
        decreases events.len(),
    {
        if events.len() == 0 {
            Seq::empty()
        } else {
            let before = self.after_events(events.drop_last());
            let earlier = self.notices(events.drop_last());
            match before.reaction(events.last()) {
                Reaction::Toggled(mode) => earlier.push(mode),
                _ => earlier,
            }
        }
    }

    /// The state after one iteration of the loop that polled `events`.
    pub open spec fn after_step(self, events: Seq<Event>) -> Controller {
        match self.state {
            LoopState::Running => self.after_events(handled_events(events)),
            LoopState::Terminated => self,
        }
    }

    /// The modes announced in one iteration of the loop that polled `events`.
    pub open spec fn step_notices(self, events: Seq<Event>) -> Seq<Demo> {
        match self.state {
            LoopState::Running => self.notices(handled_events(events)),
            LoopState::Terminated => Seq::empty(),
        }
    }

    /// The state after the loop has gone through the recorded polls, one
    /// iteration for each.
    pub open spec fn after_run(self, polls: Seq<Seq<Event>>) -> Controller
        decreases polls.len(),
    {
        if polls.len() == 0 {
            self
        } else {
            self.after_run(polls.drop_last()).after_step(polls.last())
        }
    }

    /// How many iterations the loop makes on the recorded polls: one for each
    /// poll for as long as it is running, the one that ends it included.
    pub open spec fn iterations(self, polls: Seq<Seq<Event>>) -> nat
        decreases polls.len(),
    {
        if polls.len() == 0 {
            0
        } else if self.after_run(polls.drop_last()).state == LoopState::Running {
            polls.len()
        } else {
            self.iterations(polls.drop_last())
        }
    }

    /// A controller in direct mode, running.
    pub fn new() -> (controller: Controller)
        ensures
            controller == Controller::initial(),
    {
        Controller { mode: Demo::Direct, state: LoopState::Running }
    }

    /// Handles one event.
    ///
    /// A close request or the escape key released ends the loop. The space
    /// bar released toggles the demo mode. Every other event is ignored.
    pub fn handle_event(&mut self, event: Event) -> (reaction: Reaction)
        ensures
            *final(self) == old(self).handled(event),
            reaction == old(self).reaction(event),
            !event.is_quit() && !event.is_toggle() ==> *final(self) == *old(self) && reaction
                == Reaction::Ignored,
    {
        match event {
            Event::Close => {
                self.state = LoopState::Terminated;
                Reaction::Quit
            },
            Event::Key { key: Key::Escape, action: Action::Release, .. } => {
                self.state = LoopState::Terminated;
                Reaction::Quit
            },
            Event::Key { key: Key::Space, action: Action::Release, .. } => {
                self.mode = self.mode.toggle();
                Reaction::Toggled(self.mode)
            },
            _ => Reaction::Ignored,
        }
    }

    /// The render pass of one frame: the clear colour, and the two draw
    /// submissions of the active mode in the order in which they are to be
    /// issued.
    pub fn render_frame(&self) -> (pass: Pass)
        ensures
            pass.clear == clear_color(),
            pass.draws@ == frame_draws(self.mode),
    {
        let draws = match self.mode {
            Demo::Direct => vec![
                Draw { mesh: Mesh::Direct, offset: 3, count: 3 },
                Draw { mesh: Mesh::Direct, offset: 0, count: 3 },
            ],
            Demo::Indexed => vec![
                Draw { mesh: Mesh::Indexed, offset: 0, count: 3 },
                Draw { mesh: Mesh::Indexed, offset: 3, count: 3 },
            ],
        };
        Pass { clear: Rgba { red: 0, green: 0, blue: 0, alpha: 0 }, draws }
    }

    /// Runs one iteration of the loop on the events polled for it.
    ///
    /// The events are handled in arrival order, up to and including the first
    /// that asks to quit. If one did, the loop is terminated and the frame
    /// says to stop; otherwise the frame holds the draws of the mode that is
    /// then active. A terminated controller stays as it is and says to stop.
    pub fn step(&mut self, events: &Vec<Event>) -> (frame: Frame)
        ensures
            *final(self) == old(self).after_step(events@),
            frame.is_frame_of(*old(self), events@),
    {
        let mut notices: Vec<Demo> = Vec::new();
        match self.state {
            LoopState::Terminated => {
                return Frame { notices, outcome: Outcome::Stop };
            },
            LoopState::Running => {},
        }
        let mut i: usize = 0;
        while i < events.len()
            invariant_except_break
                self.state == LoopState::Running,
                forall|j: int| 0 <= j < i ==> !events@[j].is_quit(),
            invariant
                i <= events.len(),
                *self == old(self).after_events(events@.take(i as int)),
                notices@ == old(self).notices(events@.take(i as int)),
            ensures
                forall|j: int| 0 <= j < i && events@[j].is_quit() ==> j == i - 1,
                i == events.len() || (i > 0 && events@[i - 1].is_quit()),
                self.state == LoopState::Running <==> !(i > 0 && events@[i - 1].is_quit()),
            decreases events.len() - i,
        {
            proof {
                assert(events@.take(i + 1).drop_last() =~= events@.take(i as int));
            }
            let reaction = self.handle_event(events[i]);
            i = i + 1;
            match reaction {
                Reaction::Quit => {
                    break ;
                },
                Reaction::Toggled(mode) => {
                    notices.push(mode);
                },
                Reaction::Ignored => {},
            }
        }
        proof {
            lemma_handled_len(events@, i as int);
        }
        match self.state {
            LoopState::Terminated => Frame { notices, outcome: Outcome::Stop },
            LoopState::Running => Frame {
                notices,
                outcome: Outcome::Render { pass: self.render_frame(), pause_ms: PAUSE_MS },
            },
        }
    }

    /// Runs the loop on a recording: `batches` holds, in order, what each
    /// poll of the window returns.
    ///
    /// The loop makes one iteration for each batch, as [`Controller::step`]
    /// does, and ends with the iteration that handles a quit request or when
    /// the recording runs out. The frames of the iterations made come back in
    /// order. A terminated controller makes none.
    pub fn run(&mut self, batches: &Vec<Vec<Event>>) -> (frames: Vec<Frame>)
        ensures
            *final(self) == old(self).after_run(polls_of(batches@)),
            frames@.len() == old(self).iterations(polls_of(batches@)),
            forall|k: int|
                0 <= k < frames@.len() ==> (#[trigger] frames@[k]).is_frame_of(
                    old(self).after_run(polls_of(batches@).take(k)),
                    polls_of(batches@)[k],
                ),
    {
        let ghost recorded = polls_of(batches@);
        let mut frames: Vec<Frame> = Vec::new();
        let mut k: usize = 0;
        while k < batches.len()
            invariant
                k <= batches.len(),
                recorded == polls_of(batches@),
                *self == old(self).after_run(recorded.take(k as int)),
                frames@.len() == k,
                forall|j: int|
                    0 <= j < k ==> old(self).after_run(#[trigger] recorded.take(j)).state
                        == LoopState::Running,
                forall|j: int|
                    0 <= j < k ==> (#[trigger] frames@[j]).is_frame_of(
                        old(self).after_run(recorded.take(j)),
                        recorded[j],
                    ),
            ensures
                k == batches.len() || self.state == LoopState::Terminated,
            decreases batches.len() - k,
        {
            match self.state {
                LoopState::Terminated => {
                    break ;
                },
                LoopState::Running => {},
            }
            proof {
                assert(recorded.take(k + 1).drop_last() =~= recorded.take(k as int));
            }
            let frame = self.step(&batches[k]);
            frames.push(frame);
            k = k + 1;
        }
        proof {
            lemma_run_stops(*old(self), recorded, k as int);
        }
        frames
    }
}

/// The loop handles `n` events of a batch if none before the last of them
/// asks to quit, and the last of them does or the batch ends there.
pub proof fn lemma_handled_len(events: Seq<Event>, n: int)
    requires
        0 <= n <= events.len(),
        forall|j: int| 0 <= j < n && events[j].is_quit() ==> j == n - 1,
        n == events.len() || (n > 0 && events[n - 1].is_quit()),
    ensures
        handled_len(events) == n,
    decreases events.len(),
{
    if events.len() > 0 && !events[0].is_quit() {
        let rest = events.drop_first();
        lemma_handled_len(rest, n - 1);
    }
}

/// The loop makes `n` iterations on a recording if it is running at the start
/// of each of them, and after them it is terminated or the recording has run
/// out. What is recorded after that changes nothing.
pub proof fn lemma_run_stops(controller: Controller, polls: Seq<Seq<Event>>, n: int)
    requires
        0 <= n <= polls.len(),
        forall|j: int|
            0 <= j < n ==> controller.after_run(#[trigger] polls.take(j)).state
                == LoopState::Running,
        n == polls.len() || controller.after_run(polls.take(n)).state == LoopState::Terminated,
    ensures
        controller.iterations(polls) == n,
        controller.after_run(polls) == controller.after_run(polls.take(n)),
    decreases polls.len(),
{
    if n == polls.len() {
        assert(polls.take(n) =~= polls);
    } else {
        let earlier = polls.drop_last();
        assert forall|j: int| 0 <= j <= n implies #[trigger] earlier.take(j) =~= polls.take(j) by {}
        lemma_run_stops(controller, earlier, n);
    }
}

} // verus!
