//! The rules of the runtime, as a state machine over mathematical values.
//!
//! The runtime never touches the terminal, the clock or a thread itself. It
//! asks for one thing at a time, an [`Action`], and is told how that went, an
//! [`Outcome`]. What it then does is a function of its state and the outcome:
//! [`Model::step`]. A run goes through three stages. At startup the startup
//! hook, if there is one, is asked for its command, the command is carried out
//! and the initial screen activated. While running,
//! each iteration paces itself, polls the listener once, hands the active
//! screen one message, carries out its answer and renders. At shutdown the
//! screens in the registry are told, the shutdown hook, if there is one, is
//! asked for its command, the command is carried out and the listener is
//! stopped. A hook is called when its command is due, and not before.

use crate::application::{EventSourceDisconnectedError, MissingScreenError, RuntimeError};
use crate::command::{Command, ErasedCommand, Primitive};
use crate::message::{InputEvent, Message};
use crate::screen::{BoxedScreen, ScreenKey};
use crate::slots::SlotsView;
use vstd::prelude::*;

verus! {

/// The part of a run that a command is carried out in.
#[derive(Debug, Clone, Copy, PartialEq, Eq, Structural)]
pub enum Stage {
    /// The startup command is carried out and the initial screen activated.
    Initializing,
    /// The main loop iterates.
    Running,
    /// The shutdown command is carried out and the listener stopped.
    ShuttingDown,
}

/// What the runtime is waiting for.
#[derive(Debug, Clone, Copy, PartialEq, Eq, Structural)]
pub enum Phase {
    /// The run has not begun.
    Idle,
    /// The startup hook is being called.
    StartupHook,
    /// The shutdown hook is being called.
    ShutdownHook,
    /// Raw mode is being switched on or off.
    RawMode { enable: bool },
    /// A terminal-control operation is being written.
    Control,
    /// The listener is being started.
    Listen,
    /// The clock is being read to see how long the last iteration took.
    Elapsed,
    /// The rest of the tick interval is being slept.
    Sleep,
    /// The clock is being read to date the new tick.
    Tick,
    /// The listener's channel is being polled.
    Poll,
    /// The active screen is taking in the message of this iteration.
    Update,
    /// The active screen is being rendered.
    Render,
    /// The screens in the registry are being told of the shutdown.
    Notify,
    /// The listener is being told to stop.
    Unlisten,
    /// The run is over.
    Terminated,
}

/// What the runtime asks its driver to do next.
#[derive(Debug, Clone, Copy, PartialEq, Eq, Structural)]
pub enum Action {
    /// Begin the run.
    Start,
    /// Call the startup hook and report the command it gives.
    Startup,
    /// Call the shutdown hook and report the command it gives.
    Shutdown,
    EnableRawMode,
    DisableRawMode,
    /// Write the pending terminal-control operation to the output sink and
    /// flush it.
    Execute,
    /// Start the event listener with this poll interval, in nanoseconds.
    Listen(u128),
    /// Report the time of a monotonic clock, in nanoseconds.
    ReadClock,
    /// Sleep for this many nanoseconds.
    Sleep(u128),
    /// Take at most one pending event from the listener's channel, without
    /// waiting.
    Poll,
    /// Let the active screen take in the pending message.
    Update,
    /// Render the active screen.
    Render,
    /// Tell the screens in the registry of the shutdown.
    Notify,
    /// Tell the listener to stop, without waiting until it has.
    StopListening,
    /// Return the result of the run.
    Exit,
}

/// What one poll of the listener's channel gave.
#[derive(Debug, PartialEq, Eq)]
pub enum Polled {
    Event(InputEvent),
    Empty,
    Disconnected,
}

impl Polled {
    /// The pending event if there was one, none if the channel was empty, and
    /// a fault if the channel was closed.
    pub open spec fn read(self) -> Result<Option<InputEvent>, EventSourceDisconnectedError> {
        match self {
            Polled::Event(event) => Ok(Some(event)),
            Polled::Empty => Ok(None),
            Polled::Disconnected => Err(EventSourceDisconnectedError),
        }
    }
}

/// How the action that the runtime asked for went.
pub enum Outcome {
    /// The action was taken; there is nothing to report.
    Done,
    /// A terminal operation succeeded or failed.
    Io(Result<(), std::io::Error>),
    /// The clock was read.
    Time(u128),
    /// The listener's channel was polled.
    Polled(Polled),
    /// The active screen took in the message and answered.
    Answer(Option<Command>),
    /// A hook was called and gave its command.
    Hook(Command),
}

/// The state of the runtime.
pub struct Model {
    pub screens: SlotsView,
    /// Whether there is a startup hook: it gives the command to carry out
    /// before the initial screen is activated.
    pub startup: bool,
    /// Whether there is a shutdown hook: it gives the command to carry out
    /// once the registry's screens have been told of the shutdown.
    pub shutdown: bool,
    /// The tick interval, in nanoseconds.
    pub tick_rate: u128,
    /// The listener's poll interval, in nanoseconds.
    pub event_poll_rate: u128,
    /// When the last tick began, absent before the first iteration.
    pub last_tick: Option<u128>,
    /// Set by `Quit`, looked at once at the top of each iteration.
    pub exiting: bool,
    pub stage: Stage,
    pub phase: Phase,
    /// The key of the screen to activate at startup.
    pub initial: ScreenKey,
    /// The steps still to be taken of the command being carried out.
    pub pending: Seq<Primitive>,
    /// The terminal-control operation being written.
    pub control: Option<ErasedCommand>,
    /// The message that the active screen is to take in.
    pub message: Option<Message>,
    /// How long to sleep before the next tick, in nanoseconds.
    pub delay: u128,
    /// The fault that ended the run.
    pub failure: Option<RuntimeError>,
}

/// The steps of a command that may be absent.
pub open spec fn steps_of(command: Option<Command>) -> Seq<Primitive> {
    match command {
        Some(command) => command.flatten(),
        None => Seq::empty(),
    }
}

/// How long to sleep so that ticks are `tick_rate` apart: what is left of the
/// interval when `now - last_tick` of it has passed, and nothing when more
/// than the interval has passed.
pub open spec fn pace(tick_rate: u128, last_tick: u128, now: u128) -> u128 {
    let elapsed = if now >= last_tick {
        now - last_tick
    } else {
        0
    };
    if tick_rate >= elapsed {
        (tick_rate - elapsed) as u128
    } else {
        0
    }
}

impl Model {
    /// The state of a runtime that has been built and not started.
    pub open spec fn built(
        registry: Map<ScreenKey, BoxedScreen>,
        startup: bool,
        shutdown: bool,
        tick_rate: u128,
        event_poll_rate: u128,
    ) -> Model {
        Model {
            screens: SlotsView { registry, active: None, previous: None },
            startup,
            shutdown,
            tick_rate,
            event_poll_rate,
            last_tick: None,
            exiting: false,
            stage: Stage::Initializing,
            phase: Phase::Idle,
            initial: 0,
            pending: Seq::empty(),
            control: None,
            message: None,
            delay: 0,
            failure: None,
        }
    }

    /// What holds of every state that a run can reach.
    pub open spec fn wf(self) -> bool {
        &&& self.screens.wf()
        &&& self.control is Some <==> self.phase == Phase::Control
        &&& self.message is Some <==> self.phase == Phase::Update
        &&& self.failure is Some ==> self.phase == Phase::Terminated
        &&& self.pending.len() > 0 ==> self.phase is RawMode || self.phase == Phase::Control
        &&& self.phase == Phase::Idle || self.phase == Phase::StartupHook || self.phase
            == Phase::Listen ==> self.stage == Stage::Initializing
        &&& self.in_iteration() ==> self.stage == Stage::Running
        &&& self.phase == Phase::ShutdownHook || self.phase == Phase::Unlisten ==> self.stage
            == Stage::ShuttingDown
        &&& self.phase == Phase::Elapsed ==> self.last_tick is Some
        &&& self.stage != Stage::Initializing || self.phase == Phase::Listen
            ==> self.screens.active is Some
    }

    /// What holds between two steps of a command: the screens are in order,
    /// nothing is being written or delivered, and no fault has occurred.
    pub open spec fn ready(self) -> bool {
        &&& self.screens.wf()
        &&& self.control is None
        &&& self.message is None
        &&& self.failure is None
        &&& self.stage != Stage::Initializing ==> self.screens.active is Some
    }

    /// Whether the run is on its way out: the exiting flag is up, or `Quit`
    /// is among the steps still to be taken.
    pub open spec fn quitting(self) -> bool {
        self.exiting || exists|i: int|
            0 <= i < self.pending.len() && #[trigger] self.pending[i] == Primitive::Quit
    }

    /// Whether the runtime is at one of the steps that only a loop iteration
    /// takes.
    pub open spec fn in_iteration(self) -> bool {
        ||| self.phase == Phase::Elapsed
        ||| self.phase == Phase::Sleep
        ||| self.phase == Phase::Tick
        ||| self.phase == Phase::Poll
        ||| self.phase == Phase::Update
        ||| self.phase == Phase::Render
        ||| self.phase == Phase::Notify
    }

    /// The action that the runtime is waiting for.
    pub open spec fn awaiting(self) -> Action {
        match self.phase {
            Phase::Idle => Action::Start,
            Phase::StartupHook => Action::Startup,
            Phase::ShutdownHook => Action::Shutdown,
            Phase::RawMode { enable } => if enable {
                Action::EnableRawMode
            } else {
                Action::DisableRawMode
            },
            Phase::Control => Action::Execute,
            Phase::Listen => Action::Listen(self.event_poll_rate),
            Phase::Elapsed => Action::ReadClock,
            Phase::Sleep => Action::Sleep(self.delay),
            Phase::Tick => Action::ReadClock,
            Phase::Poll => Action::Poll,
            Phase::Update => Action::Update,
            Phase::Render => Action::Render,
            Phase::Notify => Action::Notify,
            Phase::Unlisten => Action::StopListening,
            Phase::Terminated => Action::Exit,
        }
    }

    /// The result of the run, once it is over.
    pub open spec fn result(self) -> Result<(), RuntimeError> {
        match self.failure {
            Some(error) => Err(error),
            None => Ok(()),
        }
    }

    /// The run ends with a fault. What was still to be done is dropped; what
    /// has been done stays done.
    pub open spec fn fail(self, error: RuntimeError) -> Model {
        Model {
            phase: Phase::Terminated,
            failure: Some(error),
            pending: Seq::empty(),
            control: None,
            message: None,
            ..self
        }
    }

    /// The command being carried out has no steps left. At startup the initial
    /// screen is activated, which is a fault if it was never registered, and
    /// the listener is started. While running, the active screen is rendered.
    /// At shutdown the listener is stopped.
    pub open spec fn settle(self) -> Model {
        match self.stage {
            Stage::Initializing => if self.screens.registry.contains_key(self.initial) {
                Model {
                    screens: self.screens.activate(self.initial),
                    phase: Phase::Listen,
                    ..self
                }
            } else {
                self.fail(RuntimeError::MissingScreen(MissingScreenError(self.initial)))
            },
            Stage::Running => Model { phase: Phase::Render, ..self },
            Stage::ShuttingDown => Model { phase: Phase::Unlisten, ..self },
        }
    }

    /// The command interpreter. The pending steps are taken in order until one
    /// needs the terminal, one fails, or none is left. A switch to a screen
    /// that the registry does not hold is a fault; `Quit` raises the exiting
    /// flag and nothing else.
    pub open spec fn advance(self) -> Model
        decreases self.pending.len(),
    {
        if self.pending.len() == 0 {
            self.settle()
        } else {
            let rest = Model { pending: self.pending.drop_first(), ..self };
            match self.pending.first() {
                Primitive::Screen(key) => if self.screens.registry.contains_key(key) {
                    Model { screens: self.screens.activate(key), ..rest }.advance()
                } else {
                    rest.fail(RuntimeError::MissingScreen(MissingScreenError(key)))
                },
                Primitive::EnableRawMode => Model { phase: Phase::RawMode { enable: true }, ..rest },
                Primitive::DisableRawMode => Model {
                    phase: Phase::RawMode { enable: false },
                    ..rest
                },
                Primitive::Crossterm(operation) => Model {
                    phase: Phase::Control,
                    control: Some(operation),
                    ..rest
                },
                Primitive::Quit => Model { exiting: true, ..rest }.advance(),
            }
        }
    }

    /// The top of a loop iteration. With the exiting flag up, the shutdown
    /// begins, before any pacing or polling. Otherwise the iteration begins
    /// by pacing itself, which the first iteration has no need of.
    pub open spec fn iterate(self) -> Model {
        if self.exiting {
            Model { phase: Phase::Notify, ..self }
        } else if self.last_tick is Some {
            Model { phase: Phase::Elapsed, ..self }
        } else {
            Model { phase: Phase::Tick, ..self }
        }
    }

    /// The run begins, with `initial` as the screen to activate. With a
    /// startup hook, the hook is asked for its command first; without one, the
    /// initial screen is activated at once. A run that has begun does not
    /// begin again.
    pub open spec fn start(self, initial: ScreenKey) -> Model {
        if self.phase == Phase::Idle {
            let begun = Model { stage: Stage::Initializing, initial, ..self };
            if self.startup {
                Model { phase: Phase::StartupHook, ..begun }
            } else {
                begun.advance()
            }
        } else {
            self
        }
    }

    /// The shutdown begins, once the screens in the registry have been told.
    /// With a shutdown hook, the hook is asked for its command now, and not
    /// before; without one, the listener is stopped at once.
    pub open spec fn shut_down(self) -> Model {
        let down = Model { stage: Stage::ShuttingDown, ..self };
        if self.shutdown {
            Model { phase: Phase::ShutdownHook, ..down }
        } else {
            down.advance()
        }
    }

    /// The active screen has taken in the message and is now `screen`.
    pub open spec fn updated(self, screen: BoxedScreen) -> Model {
        Model { screens: self.screens.updated(screen), ..self }
    }

    /// The screens in the registry have been told of the shutdown and are now
    /// `registry`.
    pub open spec fn notified(self, registry: Map<ScreenKey, BoxedScreen>) -> Model {
        Model { screens: SlotsView { registry, ..self.screens }, ..self }
    }

    /// One transition: the state after the driver has reported `outcome`. An
    /// outcome that does not answer the action the runtime is waiting for
    /// changes nothing.
    pub open spec fn step(self, outcome: Outcome) -> Model {
        match (self.phase, outcome) {
            (Phase::RawMode { .. }, Outcome::Io(Ok(()))) => self.advance(),
            (Phase::RawMode { .. }, Outcome::Io(Err(error))) => self.fail(
                RuntimeError::RawMode(error),
            ),
            (Phase::Control, Outcome::Io(Ok(()))) => Model { control: None, ..self }.advance(),
            (Phase::Control, Outcome::Io(Err(error))) => self.fail(
                RuntimeError::CrosstermCommandExecution(error),
            ),
            (Phase::Listen, Outcome::Done) => Model { stage: Stage::Running, ..self }.iterate(),
            (Phase::Elapsed, Outcome::Time(now)) => match self.last_tick {
                Some(last_tick) => Model {
                    phase: Phase::Sleep,
                    delay: pace(self.tick_rate, last_tick, now),
                    ..self
                },
                None => Model { phase: Phase::Tick, ..self },
            },
            (Phase::Sleep, Outcome::Done) => Model { phase: Phase::Tick, ..self },
            (Phase::Tick, Outcome::Time(now)) => Model {
                phase: Phase::Poll,
                last_tick: Some(now),
                ..self
            },
            (Phase::Poll, Outcome::Polled(polled)) => match polled.read() {
                Ok(read) => Model {
                    phase: Phase::Update,
                    message: Some(Message::of_read(read)),
                    ..self
                },
                Err(error) => self.fail(RuntimeError::EventSourceDisconnected(error)),
            },
            (Phase::Update, Outcome::Answer(answer)) => Model {
                message: None,
                pending: steps_of(answer),
                ..self
            }.advance(),
            (Phase::Render, Outcome::Done) => self.iterate(),
            (Phase::Notify, Outcome::Done) => self.shut_down(),
            (Phase::StartupHook, Outcome::Hook(command)) => Model {
                pending: command.flatten(),
                ..self
            }.advance(),
            (Phase::ShutdownHook, Outcome::Hook(command)) => Model {
                pending: command.flatten(),
                ..self
            }.advance(),
            (Phase::Unlisten, Outcome::Done) => Model { phase: Phase::Terminated, ..self },
            _ => self,
        }
    }

    /// The command interpreter leaves the runtime in order and every screen
    /// where a sequence of switches leaves it: no key is gained or lost.
    pub proof fn lemma_advance_wf(self)
        requires
            self.ready(),
        ensures
            self.advance().wf(),
            self.advance().screens.keys() == self.screens.keys(),
            self.advance().screens.count() == self.screens.count(),
            self.advance().message is None,
            self.advance().phase != Phase::StartupHook,
            self.advance().phase != Phase::ShutdownHook,
            self.quitting() ==> self.advance().failure is Some || self.advance().quitting(),
        decreases self.pending.len(),
    {
        if self.pending.len() == 0 {
            self.screens.lemma_activate(self.initial);
        } else {
            let rest = Model { pending: self.pending.drop_first(), ..self };
            match self.pending.first() {
                Primitive::Screen(key) => {
                    self.screens.lemma_activate(key);
                    if self.screens.registry.contains_key(key) {
                        (Model { screens: self.screens.activate(key), ..rest }).lemma_advance_wf();
                    }
                },
                Primitive::Quit => {
                    (Model { exiting: true, ..rest }).lemma_advance_wf();
                },
                _ => {},
            }
            if self.quitting() && !self.exiting {
                let i = choose|i: int|
                    0 <= i < self.pending.len() && self.pending[i] == Primitive::Quit;
                if i > 0 {
                    assert(rest.pending[i - 1] == Primitive::Quit);
                }
            }
        }
    }

    /// No transition of a run, whatever the driver reports and whatever the
    /// commands carried out, puts a key in two places or gains or loses one:
    /// the runtime stays in order and holds the screens it held.
    pub proof fn law_step_keeps_every_screen(self, outcome: Outcome)
        requires
            self.wf(),
        ensures
            self.step(outcome).wf(),
            self.step(outcome).screens.keys() == self.screens.keys(),
            self.step(outcome).screens.count() == self.screens.count(),
    {
        match (self.phase, outcome) {
            (Phase::RawMode { .. }, Outcome::Io(Ok(()))) => {
                self.lemma_advance_wf();
            },
            (Phase::Control, Outcome::Io(Ok(()))) => {
                (Model { control: None, ..self }).lemma_advance_wf();
            },
            (Phase::Update, Outcome::Answer(answer)) => {
                (Model { message: None, pending: steps_of(answer), ..self }).lemma_advance_wf();
            },
            (Phase::Notify, Outcome::Done) => {
                (Model { stage: Stage::ShuttingDown, ..self }).lemma_advance_wf();
            },
            (Phase::StartupHook, Outcome::Hook(command)) => {
                (Model { pending: command.flatten(), ..self }).lemma_advance_wf();
            },
            (Phase::ShutdownHook, Outcome::Hook(command)) => {
                (Model { pending: command.flatten(), ..self }).lemma_advance_wf();
            },
            _ => {},
        }
    }

    /// The beginning of a run keeps the runtime in order and every screen
    /// held.
    pub proof fn law_start_keeps_every_screen(self, initial: ScreenKey)
        requires
            self.wf(),
        ensures
            self.start(initial).wf(),
            self.start(initial).screens.keys() == self.screens.keys(),
    {
        if self.phase == Phase::Idle {
            (Model { stage: Stage::Initializing, initial, ..self }).lemma_advance_wf();
        }
    }

    /// An empty batch has no steps: answering with one is answering with no
    /// command at all. It changes nothing and cannot fail, and the iteration
    /// goes on to render.
    pub proof fn law_empty_batch_does_nothing(self, batch: Command)
        requires
            batch matches Command::Batch(commands) && commands@.len() == 0,
        ensures
            batch.flatten() == Seq::<Primitive>::empty(),
            self.step(Outcome::Answer(Some(batch))) == self.step(Outcome::Answer(None)),
            self.wf() && self.phase == Phase::Update ==> self.step(Outcome::Answer(Some(batch)))
                == (Model { message: None, phase: Phase::Render, ..self }),
    {
        if self.wf() && self.phase == Phase::Update {
            assert(self.pending =~= Seq::empty());
        }
    }

    /// When the poll finds the channel empty, the message of the iteration is
    /// a tick, and the one thing the runtime asks for is that the active
    /// screen take it in. Once the screen has answered, no message is pending
    /// until the next poll.
    pub proof fn law_empty_poll_is_one_tick(self, answer: Option<Command>)
        requires
            self.wf(),
            self.phase == Phase::Poll,
        ensures
            self.step(Outcome::Polled(Polled::Empty)).message == Some(Message::Tick),
            self.step(Outcome::Polled(Polled::Empty)).awaiting() == Action::Update,
            self.step(Outcome::Polled(Polled::Empty)).step(Outcome::Answer(answer)).message
                is None,
            self.step(Outcome::Polled(Polled::Empty)).step(Outcome::Answer(answer)).phase
                != Phase::Update,
    {
        let polled = self.step(Outcome::Polled(Polled::Empty));
        (Model { message: None, pending: steps_of(answer), ..polled }).lemma_advance_wf();
    }

    /// `Quit` does not stop the iteration it is carried out in: the active
    /// screen is rendered once more. The shutdown begins at the top of the
    /// next iteration, before any pacing or polling.
    pub proof fn law_quit_waits_for_the_next_iteration(self)
        requires
            self.wf(),
            self.phase == Phase::Update,
        ensures
            self.step(Outcome::Answer(Some(Command::Quit))) == (Model {
                message: None,
                exiting: true,
                phase: Phase::Render,
                ..self
            }),
            self.step(Outcome::Answer(Some(Command::Quit))).step(Outcome::Done).awaiting()
                == Action::Notify,
    {
        let quit = Model { message: None, pending: steps_of(Some(Command::Quit)), ..self };
        let rest = Model { pending: quit.pending.drop_first(), ..quit };
        assert(rest.pending =~= Seq::empty());
        assert(quit.advance() == (Model { exiting: true, ..rest }).advance());
        assert((Model { exiting: true, ..rest }).pending =~= self.pending);
    }

    /// `Quit` takes effect wherever it stands in what a screen answers. Once
    /// `Quit` is among the steps to be taken, every transition either ends the
    /// run with a fault or leaves the run on its way out; the frame of the
    /// iteration is still rendered, and when it has been, the shutdown begins:
    /// no pacing, no poll, no update and no render come after it.
    pub proof fn law_quit_in_a_batch_waits_for_the_next_iteration(
        self,
        answer: Option<Command>,
        outcome: Outcome,
    )
        requires
            self.wf(),
            self.stage == Stage::Running,
        ensures
            self.phase == Phase::Update && (Model { pending: steps_of(answer), ..self }).quitting()
                ==> self.step(Outcome::Answer(answer)).failure is Some || self.step(
                Outcome::Answer(answer),
            ).quitting(),
            self.quitting() ==> self.step(outcome).failure is Some || self.step(
                outcome,
            ).quitting(),
            self.quitting() && self.phase == Phase::Render ==> self.exiting && self.step(
                Outcome::Done,
            ).awaiting() == Action::Notify,
    {
        match (self.phase, outcome) {
            (Phase::RawMode { .. }, Outcome::Io(Ok(()))) => {
                self.lemma_advance_wf();
            },
            (Phase::Control, Outcome::Io(Ok(()))) => {
                let next = Model { control: None, ..self };
                if self.quitting() && !self.exiting {
                    let i = choose|i: int|
                        0 <= i < self.pending.len() && self.pending[i] == Primitive::Quit;
                    assert(next.pending[i] == Primitive::Quit);
                }
                next.lemma_advance_wf();
            },
            (Phase::Update, Outcome::Answer(given)) => {
                (Model { message: None, pending: steps_of(given), ..self }).lemma_advance_wf();
            },
            (Phase::Notify, Outcome::Done) => {
                (Model { stage: Stage::ShuttingDown, ..self }).lemma_advance_wf();
            },
            _ => {},
        }
        if self.phase == Phase::Update {
            let asked = Model { pending: steps_of(answer), ..self };
            let next = Model { message: None, pending: steps_of(answer), ..self };
            if asked.quitting() && !asked.exiting {
                let i = choose|i: int|
                    0 <= i < asked.pending.len() && asked.pending[i] == Primitive::Quit;
                assert(next.pending[i] == Primitive::Quit);
            }
            next.lemma_advance_wf();
        }
    }

    /// Ticks are paced. At the top of every iteration but the first, the
    /// runtime reads the clock and asks for one sleep: of what is left of the
    /// tick interval when `now - last_tick` of it has passed, and of nothing
    /// when the interval has passed already. Only when the sleep is over is
    /// the clock read again and that time recorded as the new tick.
    pub proof fn law_ticks_are_paced(self, now: u128, later: u128)
        requires
            self.wf(),
            self.phase == Phase::Render,
            !self.exiting,
            self.last_tick is Some,
        ensures
            self.step(Outcome::Done).awaiting() == Action::ReadClock,
            self.step(Outcome::Done).step(Outcome::Time(now)).awaiting() == Action::Sleep(
                pace(self.tick_rate, self.last_tick->0, now),
            ),
            now - self.last_tick->0 >= self.tick_rate ==> pace(
                self.tick_rate,
                self.last_tick->0,
                now,
            ) == 0,
            0 <= now - self.last_tick->0 <= self.tick_rate ==> pace(
                self.tick_rate,
                self.last_tick->0,
                now,
            ) == self.tick_rate - (now - self.last_tick->0),
            self.step(Outcome::Done).step(Outcome::Time(now)).last_tick == self.last_tick,
            self.step(Outcome::Done).step(Outcome::Time(now)).step(Outcome::Done).awaiting()
                == Action::ReadClock,
            self.step(Outcome::Done).step(Outcome::Time(now)).step(Outcome::Done).step(
                Outcome::Time(later),
            ) == (Model {
                phase: Phase::Poll,
                last_tick: Some(later),
                delay: pace(self.tick_rate, self.last_tick->0, now),
                ..self
            }),
    {
    }

    /// The first iteration does not sleep: with no tick on record, the
    /// runtime reads the clock once, records the time as the first tick and
    /// goes on to poll.
    pub proof fn law_first_iteration_does_not_sleep(self, now: u128)
        requires
            self.wf(),
            self.phase == Phase::Listen,
            !self.exiting,
            self.last_tick is None,
        ensures
            self.step(Outcome::Done).awaiting() == Action::ReadClock,
            self.step(Outcome::Done).step(Outcome::Time(now)) == (Model {
                stage: Stage::Running,
                phase: Phase::Poll,
                last_tick: Some(now),
                ..self
            }),
    {
    }

    /// A hook is called when its command is due and at no other time. The
    /// startup hook is asked for only as the run begins, and only where there
    /// is one. The shutdown hook is asked for only when the screens in the
    /// registry have been told of the shutdown, and only where there is one:
    /// a run that fails before that never calls it.
    pub proof fn law_hooks_are_called_when_due(self, outcome: Outcome, initial: ScreenKey)
        requires
            self.wf(),
        ensures
            self.step(outcome).phase == Phase::StartupHook ==> self.phase == Phase::StartupHook,
            self.step(outcome).phase == Phase::ShutdownHook ==> self.phase == Phase::ShutdownHook
                || (self.phase == Phase::Notify && outcome == Outcome::Done && self.shutdown),
            self.start(initial).phase == Phase::StartupHook ==> self.phase == Phase::StartupHook
                || (self.phase == Phase::Idle && self.startup),
            self.start(initial).phase == Phase::ShutdownHook ==> self.phase
                == Phase::ShutdownHook,
    {
        self.law_step_keeps_every_screen(outcome);
        self.law_start_keeps_every_screen(initial);
        match (self.phase, outcome) {
            (Phase::RawMode { .. }, Outcome::Io(Ok(()))) => {
                self.lemma_advance_wf();
            },
            (Phase::Control, Outcome::Io(Ok(()))) => {
                (Model { control: None, ..self }).lemma_advance_wf();
            },
            (Phase::Update, Outcome::Answer(answer)) => {
                (Model { message: None, pending: steps_of(answer), ..self }).lemma_advance_wf();
            },
            (Phase::Notify, Outcome::Done) => {
                (Model { stage: Stage::ShuttingDown, ..self }).lemma_advance_wf();
            },
            (Phase::StartupHook, Outcome::Hook(command)) => {
                (Model { pending: command.flatten(), ..self }).lemma_advance_wf();
            },
            (Phase::ShutdownHook, Outcome::Hook(command)) => {
                (Model { pending: command.flatten(), ..self }).lemma_advance_wf();
            },
            _ => {},
        }
        if self.phase == Phase::Idle {
            (Model { stage: Stage::Initializing, initial, ..self }).lemma_advance_wf();
        }
    }
}

} // verus!
