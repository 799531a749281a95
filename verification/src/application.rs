//! The application runtime: its faults, its state machine and its builder.

use crate::command::{Command, ErasedCommand};
use crate::message::{InputEvent, Message};
use crate::runtime::{pace, steps_of, Action, Model, Outcome, Phase, Polled, Stage};
use crate::screen::{BoxedScreen, Screen, ScreenKey};
use crate::slots::Slots;
use std::collections::HashMap;
use vstd::prelude::*;

verus! {

/// The listener's channel was closed while the runtime was running.
#[derive(Debug, Clone, Copy, PartialEq, Eq, Structural)]
pub struct EventSourceDisconnectedError;

/// A screen was to be activated under a key that the registry does not hold.
#[derive(Debug, Clone, Copy, PartialEq, Eq, Structural)]
pub struct MissingScreenError(pub ScreenKey);

/// A fault that ends a run. None is retried.
#[derive(Debug)]
pub enum RuntimeError {
    EventSourceDisconnected(EventSourceDisconnectedError),
    MissingScreen(MissingScreenError),
    /// Writing a terminal-control operation to the output sink failed.
    CrosstermCommandExecution(std::io::Error),
    /// Switching raw mode on or off failed.
    RawMode(std::io::Error),
}

impl From<EventSourceDisconnectedError> for RuntimeError {
    fn from(value: EventSourceDisconnectedError) -> (error: RuntimeError) {
        RuntimeError::EventSourceDisconnected(value)
    }
}

impl vstd::std_specs::convert::FromSpecImpl<EventSourceDisconnectedError> for RuntimeError {
    open spec fn obeys_from_spec() -> bool {
        true
    }

    open spec fn from_spec(value: EventSourceDisconnectedError) -> RuntimeError {
        RuntimeError::EventSourceDisconnected(value)
    }
}

impl From<MissingScreenError> for RuntimeError {
    fn from(value: MissingScreenError) -> (error: RuntimeError) {
        RuntimeError::MissingScreen(value)
    }
}

impl vstd::std_specs::convert::FromSpecImpl<MissingScreenError> for RuntimeError {
    open spec fn obeys_from_spec() -> bool {
        true
    }

    open spec fn from_spec(value: MissingScreenError) -> RuntimeError {
        RuntimeError::MissingScreen(value)
    }
}

/// Moves the commands of a batch onto the stack of pending commands, the
/// first of them on top.
fn push_batch(stack: &mut Vec<Command>, batch: Vec<Command>)
    ensures
        Command::flatten_stack(final(stack)@) == Command::flatten_all(batch@)
            + Command::flatten_stack(old(stack)@),
        Command::weight_all(final(stack)@) == Command::weight_all(old(stack)@)
            + Command::weight_all(batch@),
{
    let mut commands = batch;
    loop
        invariant
            Command::flatten_all(commands@) + Command::flatten_stack(stack@)
                == Command::flatten_all(batch@) + Command::flatten_stack(old(stack)@),
            Command::weight_all(stack@) + Command::weight_all(commands@) == Command::weight_all(
                old(stack)@,
            ) + Command::weight_all(batch@),
        decreases commands.len(),
    {
        let ghost rest = commands@;
        let ghost below = stack@;
        match commands.pop() {
            Some(command) => {
                stack.push(command);
                proof {
                    assert(rest.drop_last() == commands@);
                    assert(stack@.drop_last() == below);
                    assert(Command::flatten_all(rest) + Command::flatten_stack(below)
                        =~= Command::flatten_all(commands@) + Command::flatten_stack(stack@));
                }
            },
            None => {
                assert(Command::flatten_all(commands@) + Command::flatten_stack(stack@)
                    =~= Command::flatten_stack(stack@));
                return ;
            },
        }
    }
}

/// The application runtime: the screens, the timing state and the command
/// interpreter, stepped by a driver that does what the runtime asks for.
pub struct Application {
    startup: bool,
    shutdown: bool,
    tick_rate: u128,
    last_tick: Option<u128>,
    event_poll_rate: u128,
    screens: Slots,
    exiting: bool,
    stage: Stage,
    phase: Phase,
    initial: ScreenKey,
    /// The commands still to be carried out, the next one last.
    pending: Vec<Command>,
    control: Option<ErasedCommand>,
    message: Option<Message>,
    delay: u128,
    failure: Option<RuntimeError>,
}

impl View for Application {
    type V = Model;

    closed spec fn view(&self) -> Model {
        Model {
            screens: self.screens@,
            startup: self.startup,
            shutdown: self.shutdown,
            tick_rate: self.tick_rate,
            event_poll_rate: self.event_poll_rate,
            last_tick: self.last_tick,
            exiting: self.exiting,
            stage: self.stage,
            phase: self.phase,
            initial: self.initial,
            pending: Command::flatten_stack(self.pending@),
            control: self.control,
            message: self.message,
            delay: self.delay,
            failure: self.failure,
        }
    }
}

impl Application {
    /// A builder with nothing configured.
    pub fn builder() -> (builder: Builder)
        ensures
            builder@ == BuilderView::empty(),
    {
        Builder::new()
    }

    /// What holds of a runtime at every moment of its life.
    pub open spec fn wf(&self) -> bool {
        self@.wf()
    }

    /// The action that the runtime is waiting for.
    pub fn awaiting(&self) -> (action: Action)
        ensures
            action == self@.awaiting(),
    {
        match self.phase {
            Phase::Idle => Action::Start,
            Phase::StartupHook => Action::Startup,
            Phase::ShutdownHook => Action::Shutdown,
            Phase::RawMode { enable } => if enable {
                Action::EnableRawMode
            } else {
                Action::DisableRawMode
            },
            Phase::Control => Action::Execute,
            Phase::Listen => Action::Listen(self.event_poll_rate),
            Phase::Elapsed => Action::ReadClock,
            Phase::Sleep => Action::Sleep(self.delay),
            Phase::Tick => Action::ReadClock,
            Phase::Poll => Action::Poll,
            Phase::Update => Action::Update,
            Phase::Render => Action::Render,
            Phase::Notify => Action::Notify,
            Phase::Unlisten => Action::StopListening,
            Phase::Terminated => Action::Exit,
        }
    }

    /// Reads what one poll of the listener's channel gave: the pending event
    /// if there was one, none if the channel was empty, and a fault if the
    /// channel was closed.
    pub fn try_read_event(polled: Polled) -> (read: Result<
        Option<InputEvent>,
        EventSourceDisconnectedError,
    >)
        ensures
            read == polled.read(),
    {
        match polled {
            Polled::Event(event) => Ok(Some(event)),
            Polled::Empty => Ok(None),
            Polled::Disconnected => Err(EventSourceDisconnectedError),
        }
    }

    /// Ends the run with a fault.
    fn fail(&mut self, error: RuntimeError) -> (action: Action)
        ensures
            final(self)@ == old(self)@.fail(error),
            action == Action::Exit,
    {
        self.phase = Phase::Terminated;
        self.failure = Some(error);
        self.pending = Vec::new();
        self.control = None;
        self.message = None;
        Action::Exit
    }

    /// Goes on once the command being carried out has no steps left.
    fn settle(&mut self) -> (action: Action)
        requires
            old(self)@.ready(),
        ensures
            final(self)@ == old(self)@.settle(),
            action == final(self)@.awaiting(),
            final(self)@.screens.keys() == old(self)@.screens.keys(),
    {
        match self.stage {
            Stage::Initializing => match self.screens.activate_screen(self.initial) {
                Ok(()) => {
                    self.phase = Phase::Listen;
                    Action::Listen(self.event_poll_rate)
                },
                Err(missing) => self.fail(RuntimeError::from(missing)),
            },
            Stage::Running => {
                self.phase = Phase::Render;
                Action::Render
            },
            Stage::ShuttingDown => {
                self.phase = Phase::Unlisten;
                Action::StopListening
            },
        }
    }

    /// The command interpreter: carries out the pending commands, in order and
    /// batches element by element, until one needs the terminal, one fails, or
    /// none is left.
    fn advance(&mut self) -> (action: Action)
        requires
            old(self)@.ready(),
        ensures
            final(self)@ == old(self)@.advance(),
            final(self)@.wf(),
            action == final(self)@.awaiting(),
            final(self)@.screens.keys() == old(self)@.screens.keys(),
    {
        proof {
            old(self)@.lemma_advance_wf();
        }
        loop
            invariant
                self@.ready(),
                self@.advance() == old(self)@.advance(),
                self@.screens.keys() == old(self)@.screens.keys(),
                old(self)@.advance().wf(),
            decreases Command::weight_all(self.pending@),
        {
            let ghost before = self@;
            let ghost stack = self.pending@;
            match self.pending.pop() {
                None => {
                    return self.settle();
                },
                Some(command) => {
                    assert(stack.drop_last() == self.pending@);
                    assert(before.pending == command.flatten() + Command::flatten_stack(
                        self.pending@,
                    ));
                    assert(Command::weight_all(stack) == Command::weight_all(self.pending@)
                        + command.weight());
                    match command {
                        Command::Batch(commands) => {
                            push_batch(&mut self.pending, commands);
                        },
                        Command::Screen(key) => {
                            assert(self@.pending =~= before.pending.drop_first());
                            match self.screens.activate_screen(key) {
                                Ok(()) => {},
                                Err(missing) => {
                                    return self.fail(RuntimeError::from(missing));
                                },
                            }
                        },
                        Command::EnableRawMode => {
                            assert(self@.pending =~= before.pending.drop_first());
                            self.phase = Phase::RawMode { enable: true };
                            return Action::EnableRawMode;
                        },
                        Command::DisableRawMode => {
                            assert(self@.pending =~= before.pending.drop_first());
                            self.phase = Phase::RawMode { enable: false };
                            return Action::DisableRawMode;
                        },
                        Command::Crossterm(operation) => {
                            assert(self@.pending =~= before.pending.drop_first());
                            self.control = Some(operation);
                            self.phase = Phase::Control;
                            return Action::Execute;
                        },
                        Command::Quit => {
                            assert(self@.pending =~= before.pending.drop_first());
                            self.exiting = true;
                        },
                    }
                },
            }
        }
    }

    /// Carries out a command, if there is one, on top of what is pending.
    fn handle_command(&mut self, command: Option<Command>) -> (action: Action)
        requires
            old(self)@.ready(),
            old(self)@.pending.len() == 0,
        ensures
            final(self)@ == (Model { pending: steps_of(command), ..old(self)@ }).advance(),
            final(self)@.wf(),
            action == final(self)@.awaiting(),
            final(self)@.screens.keys() == old(self)@.screens.keys(),
    {
        if let Some(command) = command {
            self.pending.push(command);
            assert(self.pending@.drop_last() == old(self).pending@);
            assert(self@.pending =~= command.flatten());
        } else {
            assert(self@.pending =~= Seq::empty());
        }
        assert(self@ == (Model { pending: steps_of(command), ..old(self)@ }));
        self.advance()
    }

    /// Goes to the top of a loop iteration.
    fn iterate(&mut self) -> (action: Action)
        ensures
            final(self)@ == old(self)@.iterate(),
            action == final(self)@.awaiting(),
    {
        if self.exiting {
            self.phase = Phase::Notify;
        } else if self.last_tick.is_some() {
            self.phase = Phase::Elapsed;
        } else {
            self.phase = Phase::Tick;
        }
        self.awaiting()
    }

    /// How long to sleep at a tick that began at `last_tick` when the clock
    /// shows `now`.
    fn pace(&self, last_tick: u128, now: u128) -> (delay: u128)
        ensures
            delay == pace(self@.tick_rate, last_tick, now),
    {
        self.tick_rate.saturating_sub(now.saturating_sub(last_tick))
    }

    /// Begins the run with `initial` as the key of the initial screen: asks
    /// for the startup hook to be called if there is one, and else activates
    /// the initial screen and asks for the listener. Returns the first action
    /// to take. On a run that has begun, nothing changes and the action being
    /// waited for is returned.
    pub fn start(&mut self, initial: ScreenKey) -> (action: Action)
        requires
            old(self).wf(),
        ensures
            final(self)@ == old(self)@.start(initial),
            final(self).wf(),
            action == final(self)@.awaiting(),
            final(self)@.screens.keys() == old(self)@.screens.keys(),
    {
        match self.phase {
            Phase::Idle => {
                self.stage = Stage::Initializing;
                self.initial = initial;
                if self.startup {
                    self.phase = Phase::StartupHook;
                    Action::Startup
                } else {
                    self.advance()
                }
            },
            _ => self.awaiting(),
        }
    }

    /// Takes in how the action that the runtime was waiting for went, and
    /// returns the next action to take. An outcome that does not answer that
    /// action changes nothing, and the same action is returned again.
    pub fn step(&mut self, outcome: Outcome) -> (action: Action)
        requires
            old(self).wf(),
        ensures
            final(self)@ == old(self)@.step(outcome),
            final(self).wf(),
            action == final(self)@.awaiting(),
            final(self)@.screens.keys() == old(self)@.screens.keys(),
    {
        match outcome {
            Outcome::Done => match self.phase {
                Phase::Listen => {
                    self.stage = Stage::Running;
                    self.iterate()
                },
                Phase::Sleep => {
                    self.phase = Phase::Tick;
                    Action::ReadClock
                },
                Phase::Render => self.iterate(),
                Phase::Notify => self.begin_shutdown(),
                Phase::Unlisten => {
                    self.phase = Phase::Terminated;
                    Action::Exit
                },
                _ => self.awaiting(),
            },
            Outcome::Io(result) => match self.phase {
                Phase::RawMode { .. } => match result {
                    Ok(()) => self.advance(),
                    Err(error) => self.fail(RuntimeError::RawMode(error)),
                },
                Phase::Control => match result {
                    Ok(()) => {
                        self.control = None;
                        self.advance()
                    },
                    Err(error) => self.fail(RuntimeError::CrosstermCommandExecution(error)),
                },
                _ => self.awaiting(),
            },
            Outcome::Time(now) => match self.phase {
                Phase::Elapsed => match self.last_tick {
                    Some(last_tick) => {
                        self.delay = self.pace(last_tick, now);
                        self.phase = Phase::Sleep;
                        Action::Sleep(self.delay)
                    },
                    None => {
                        self.phase = Phase::Tick;
                        Action::ReadClock
                    },
                },
                Phase::Tick => {
                    self.last_tick = Some(now);
                    self.phase = Phase::Poll;
                    Action::Poll
                },
                _ => self.awaiting(),
            },
            Outcome::Polled(polled) => match self.phase {
                Phase::Poll => match Self::try_read_event(polled) {
                    Ok(read) => {
                        self.message = Some(Message::next(read));
                        self.phase = Phase::Update;
                        Action::Update
                    },
                    Err(error) => self.fail(RuntimeError::from(error)),
                },
                _ => self.awaiting(),
            },
            Outcome::Answer(answer) => match self.phase {
                Phase::Update => {
                    self.message = None;
                    assert(self@.pending =~= Seq::empty());
                    self.handle_command(answer)
                },
                _ => self.awaiting(),
            },
            Outcome::Hook(command) => match self.phase {
                Phase::StartupHook => {
                    assert(self@.pending =~= Seq::empty());
                    self.handle_command(Some(command))
                },
                Phase::ShutdownHook => {
                    assert(self@.pending =~= Seq::empty());
                    self.handle_command(Some(command))
                },
                _ => self.awaiting(),
            },
        }
    }

    /// Begins the shutdown once the screens in the registry have been told:
    /// asks for the shutdown hook to be called if there is one, and else for
    /// the listener to be stopped.
    fn begin_shutdown(&mut self) -> (action: Action)
        requires
            old(self)@.ready(),
            old(self)@.screens.active is Some,
            old(self)@.pending.len() == 0,
            old(self)@.phase == Phase::Notify,
        ensures
            final(self)@ == old(self)@.shut_down(),
            final(self)@.wf(),
            action == final(self)@.awaiting(),
            final(self)@.screens.keys() == old(self)@.screens.keys(),
    {
        self.stage = Stage::ShuttingDown;
        if self.shutdown {
            self.phase = Phase::ShutdownHook;
            Action::Shutdown
        } else {
            self.advance()
        }
    }

    /// Lets the active screen take in the message of this iteration, and
    /// carries out the command it answers with. Returns the next action to
    /// take. Unless the runtime is waiting for just this, nothing changes.
    ///
    /// The message handed over is the pending one, and it is handed over once.
    /// What the screen turns into and what it answers is its own affair:
    /// whatever that is, the runtime goes on as [`Model::step`] says for that
    /// answer.
    pub fn deliver(&mut self) -> (action: Action)
        requires
            old(self).wf(),
        ensures
            old(self)@.phase != Phase::Update ==> final(self)@ == old(self)@,
            old(self)@.phase == Phase::Update ==> exists|screen: BoxedScreen, answer: Option<Command>|
                screen.took(old(self)@.screens.active->0.screen, old(self)@.message->0)
                    && final(self)@ == #[trigger] old(self)@.updated(screen).step(
                    Outcome::Answer(answer),
                ),
            final(self).wf(),
            action == final(self)@.awaiting(),
            final(self)@.screens.keys() == old(self)@.screens.keys(),
    {
        match self.message.take() {
            Some(message) => {
                let answer = self.screens.update_active(message);
                let ghost screen = self@.screens.active->0.screen;
                assert(self@ == (Model { message: None, ..old(self)@.updated(screen) }));
                assert(self@.pending =~= Seq::empty());
                let action = self.handle_command(answer);
                assert(self@ == old(self)@.updated(screen).step(Outcome::Answer(answer)));
                action
            },
            None => self.awaiting(),
        }
    }

    /// Tells every screen in the registry of the shutdown, once, and then
    /// begins the shutdown. The active and the previous screen are not
    /// told. Returns the next action to take. Unless the runtime is waiting
    /// for just this, nothing changes.
    pub fn shutdown_screens(&mut self) -> (action: Action)
        requires
            old(self).wf(),
        ensures
            old(self)@.phase != Phase::Notify ==> final(self)@ == old(self)@,
            old(self)@.phase == Phase::Notify ==> exists|registry: Map<ScreenKey, BoxedScreen>|
                old(self)@.screens.told(registry, Message::Shutdown) && final(self)@
                    == #[trigger] old(self)@.notified(registry).step(Outcome::Done),
            final(self).wf(),
            action == final(self)@.awaiting(),
            final(self)@.screens.keys() == old(self)@.screens.keys(),
    {
        match self.phase {
            Phase::Notify => {
                self.screens.shutdown_screens();
                let ghost registry = self@.screens.registry;
                assert(self@ == old(self)@.notified(registry));
                assert(self@.pending =~= Seq::empty());
                let action = self.begin_shutdown();
                assert(self@ == old(self)@.notified(registry).step(Outcome::Done));
                action
            },
            _ => self.awaiting(),
        }
    }

    /// The result of the run: the fault that ended it, if one did.
    pub fn finish(self) -> (result: Result<(), RuntimeError>)
        ensures
            result == self@.result(),
    {
        match self.failure {
            Some(error) => Err(error),
            None => Ok(()),
        }
    }

    /// The active screen, for rendering. Once the listener has been asked
    /// for, there always is one.
    pub fn active_screen(&self) -> (screen: Option<&BoxedScreen>)
        ensures
            screen == match self@.screens.active {
                Some(entry) => Some(&entry.screen),
                None => None,
            },
    {
        self.screens.active_screen()
    }

    /// The terminal-control operation to write, while the runtime waits for
    /// one to be written.
    pub fn control(&self) -> (operation: Option<&ErasedCommand>)
        ensures
            operation == match self@.control {
                Some(operation) => Some(&operation),
                None => None,
            },
    {
        match &self.control {
            Some(operation) => Some(operation),
            None => None,
        }
    }

    /// Where the screens are.
    pub fn screens(&self) -> (screens: &Slots)
        ensures
            screens@ == self@.screens,
    {
        &self.screens
    }

    /// The tick interval, in nanoseconds.
    pub fn tick_rate(&self) -> (rate: u128)
        ensures
            rate == self@.tick_rate,
    {
        self.tick_rate
    }

    /// The listener's poll interval, in nanoseconds.
    pub fn event_poll_rate(&self) -> (rate: u128)
        ensures
            rate == self@.event_poll_rate,
    {
        self.event_poll_rate
    }

    /// Whether `Quit` has been carried out.
    pub fn exiting(&self) -> (exiting: bool)
        ensures
            exiting == self@.exiting,
    {
        self.exiting
    }
}

/// The tick interval of a runtime that was given none, in nanoseconds: a
/// thirtieth of a second, as the nearest single-precision number of seconds.
pub const DEFAULT_TICK_RATE: u128 = 33_333_335;

/// What a builder has been told so far.
pub struct BuilderView {
    pub event_poll_rate: Option<u128>,
    pub registry: Map<ScreenKey, BoxedScreen>,
    pub tick_rate: Option<u128>,
    /// Whether there is a startup hook.
    pub startup: bool,
    /// Whether there is a shutdown hook.
    pub shutdown: bool,
}

impl BuilderView {
    /// Nothing configured and no screen registered.
    pub open spec fn empty() -> BuilderView {
        BuilderView {
            event_poll_rate: None,
            registry: Map::empty(),
            tick_rate: None,
            startup: false,
            shutdown: false,
        }
    }

    /// The tick interval that the runtime will have: the one configured, or
    /// the default.
    pub open spec fn tick(self) -> u128 {
        match self.tick_rate {
            Some(rate) => rate,
            None => DEFAULT_TICK_RATE,
        }
    }

    /// The poll interval that the listener will have: the one configured, or
    /// half the tick interval.
    pub open spec fn poll(self) -> u128 {
        match self.event_poll_rate {
            Some(rate) => rate,
            None => self.tick() / 2,
        }
    }
}

/// Collects the configuration and the screens of an [`Application`].
pub struct Builder {
    event_poll_rate: Option<u128>,
    screens: HashMap<ScreenKey, BoxedScreen>,
    tick_rate: Option<u128>,
    startup: bool,
    shutdown: bool,
}

impl View for Builder {
    type V = BuilderView;

    closed spec fn view(&self) -> BuilderView {
        BuilderView {
            event_poll_rate: self.event_poll_rate,
            registry: self.screens@,
            tick_rate: self.tick_rate,
            startup: self.startup,
            shutdown: self.shutdown,
        }
    }
}

impl Default for Builder {
    fn default() -> (builder: Builder)
        ensures
            builder@ == BuilderView::empty(),
    {
        Builder::new()
    }
}

impl Builder {
    /// A builder with nothing configured.
    pub fn new() -> (builder: Builder)
        ensures
            builder@ == BuilderView::empty(),
    {
        Builder {
            event_poll_rate: None,
            screens: HashMap::new(),
            tick_rate: None,
            startup: false,
            shutdown: false,
        }
    }

    /// Sets the interval at which the listener waits for input and looks
    /// whether it has been told to stop, in nanoseconds.
    pub fn event_polling_rate(self, rate: u128) -> (builder: Builder)
        ensures
            builder@ == (BuilderView { event_poll_rate: Some(rate), ..self@ }),
    {
        Builder { event_poll_rate: Some(rate), ..self }
    }

    /// Registers `screen` under `key`. A screen registered under the same key
    /// before is replaced.
    pub fn screen<S: Screen + 'static>(self, key: ScreenKey, screen: S) -> (builder: Builder)
        ensures
            builder@ == (BuilderView {
                registry: self@.registry.insert(key, BoxedScreen::of(screen)),
                ..self@
            }),
    {
        let mut screens = self.screens;
        screens.insert(key, BoxedScreen::new(screen));
        Builder { screens, ..self }
    }

    /// Sets the tick interval, in nanoseconds.
    pub fn tick_rate(self, rate: u128) -> (builder: Builder)
        ensures
            builder@ == (BuilderView { tick_rate: Some(rate), ..self@ }),
    {
        Builder { tick_rate: Some(rate), ..self }
    }

    /// Says that there is a startup hook. The runtime asks for it to be
    /// called once, as the run begins, and carries out the command it gives
    /// before the initial screen is activated.
    pub fn on_startup(self) -> (builder: Builder)
        ensures
            builder@ == (BuilderView { startup: true, ..self@ }),
    {
        Builder { startup: true, ..self }
    }

    /// Says that there is a shutdown hook. The runtime asks for it to be
    /// called once, after the screens in the registry have been told of the
    /// shutdown, and carries out the command it gives before the listener is
    /// stopped.
    pub fn on_shutdown(self) -> (builder: Builder)
        ensures
            builder@ == (BuilderView { shutdown: true, ..self@ }),
    {
        Builder { shutdown: true, ..self }
    }

    /// Builds the runtime: every registered screen in the registry, no screen
    /// active, and the run not begun.
    pub fn build(self) -> (application: Application)
        ensures
            application@ == Model::built(
                self@.registry,
                self@.startup,
                self@.shutdown,
                self@.tick(),
                self@.poll(),
            ),
            application.wf(),
    {
        let tick_rate = match self.tick_rate {
            Some(rate) => rate,
            None => DEFAULT_TICK_RATE,
        };
        let event_poll_rate = match self.event_poll_rate {
            Some(rate) => rate,
            None => tick_rate / 2,
        };
        Application {
            startup: self.startup,
            shutdown: self.shutdown,
            tick_rate,
            last_tick: None,
            event_poll_rate,
            screens: Slots::new(self.screens),
            exiting: false,
            stage: Stage::Initializing,
            phase: Phase::Idle,
            initial: 0,
            pending: Vec::new(),
            control: None,
            message: None,
            delay: 0,
            failure: None,
        }
    }
}

} // verus!
