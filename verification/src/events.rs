//! The event listener: the worker that reads input on its own schedule and
//! hands it to the runtime over a channel.
//!
//! The worker's loop is a state machine here. The thread that runs it does
//! what the machine asks for, one [`ListenerAction`] at a time, and reports
//! how it went. Between two looks at the cancellation flag the worker waits
//! for input at most once, and never longer than its poll interval, so a
//! request to stop is honoured within one poll interval of an idle terminal.

use crate::message::InputEvent;
use vstd::prelude::*;

verus! {

/// Why the listener stopped on its own.
#[derive(Debug)]
pub enum EventListenerError {
    /// Waiting for input, or reading it, failed.
    ReadError(std::io::Error),
    /// The runtime's end of the channel was gone.
    SendError(std::sync::mpsc::SendError<InputEvent>),
}

/// What the listener is waiting for.
#[derive(Debug, Clone, Copy, PartialEq, Eq, Structural)]
pub enum ListenerPhase {
    Checking,
    Waiting,
    Reading,
    Sending,
    Stopped,
}

/// What the listener asks its thread to do next.
#[derive(Debug, Clone, Copy, PartialEq, Eq, Structural)]
pub enum ListenerAction {
    /// Look at the cancellation flag.
    Check,
    /// Wait for input for at most this many nanoseconds.
    Wait(u128),
    /// Read the input occurrence that is available.
    Read,
    /// Send the held event over the channel.
    Send,
    /// End the thread with the listener's result.
    Stop,
}

/// How the action that the listener asked for went.
#[derive(Debug)]
pub enum ListenerOutcome {
    /// The cancellation flag was looked at, and was set or clear.
    Checked(bool),
    /// The wait ended with input available, or without, or failed.
    Waited(Result<bool, std::io::Error>),
    /// An input occurrence was read, or reading failed.
    Read(Result<InputEvent, std::io::Error>),
    /// The held event was sent, or the channel handed it back.
    Sent(Result<(), std::sync::mpsc::SendError<InputEvent>>),
}

/// The state of the listener.
pub struct ListenerModel {
    /// The poll interval, in nanoseconds.
    pub timeout: u128,
    pub phase: ListenerPhase,
    /// The event that is to be sent.
    pub held: Option<InputEvent>,
    /// The fault that stopped the listener.
    pub failure: Option<EventListenerError>,
}

impl ListenerModel {
    /// A listener that has not done anything yet: it begins by looking at the
    /// cancellation flag.
    pub open spec fn started(timeout: u128) -> ListenerModel {
        ListenerModel { timeout, phase: ListenerPhase::Checking, held: None, failure: None }
    }

    /// The action that the listener is waiting for.
    pub open spec fn awaiting(self) -> ListenerAction {
        match self.phase {
            ListenerPhase::Checking => ListenerAction::Check,
            ListenerPhase::Waiting => ListenerAction::Wait(self.timeout),
            ListenerPhase::Reading => ListenerAction::Read,
            ListenerPhase::Sending => ListenerAction::Send,
            ListenerPhase::Stopped => ListenerAction::Stop,
        }
    }

    /// The listener's result, once it has stopped.
    pub open spec fn result(self) -> Result<(), EventListenerError> {
        match self.failure {
            Some(error) => Err(error),
            None => Ok(()),
        }
    }

    /// The listener stops with a fault.
    pub open spec fn fail(self, error: EventListenerError) -> ListenerModel {
        ListenerModel { phase: ListenerPhase::Stopped, held: None, failure: Some(error), ..self }
    }

    /// The listener goes back to looking at the cancellation flag.
    pub open spec fn again(self) -> ListenerModel {
        ListenerModel { phase: ListenerPhase::Checking, held: None, ..self }
    }

    /// One transition. With the flag set the listener stops cleanly; with it
    /// clear it waits. A wait that times out leads back to the flag, one that
    /// finds input to a read. What was read is sent on if it is to be
    /// forwarded and dropped if not. A failed wait or read, and a channel
    /// whose other end is gone, stop the listener with a fault. An outcome
    /// that does not answer the action being waited for changes nothing.
    pub open spec fn step(self, outcome: ListenerOutcome) -> ListenerModel {
        match (self.phase, outcome) {
            (ListenerPhase::Checking, ListenerOutcome::Checked(cancelled)) => if cancelled {
                ListenerModel { phase: ListenerPhase::Stopped, ..self }
            } else {
                ListenerModel { phase: ListenerPhase::Waiting, ..self }
            },
            (ListenerPhase::Waiting, ListenerOutcome::Waited(Ok(available))) => if available {
                ListenerModel { phase: ListenerPhase::Reading, ..self }
            } else {
                self.again()
            },
            (ListenerPhase::Waiting, ListenerOutcome::Waited(Err(error))) => self.fail(
                EventListenerError::ReadError(error),
            ),
            (ListenerPhase::Reading, ListenerOutcome::Read(Ok(event))) => if event.forwarded() {
                ListenerModel { phase: ListenerPhase::Sending, held: Some(event), ..self }
            } else {
                self.again()
            },
            (ListenerPhase::Reading, ListenerOutcome::Read(Err(error))) => self.fail(
                EventListenerError::ReadError(error),
            ),
            (ListenerPhase::Sending, ListenerOutcome::Sent(Ok(()))) => self.again(),
            (ListenerPhase::Sending, ListenerOutcome::Sent(Err(error))) => self.fail(
                EventListenerError::SendError(error),
            ),
            _ => self,
        }
    }

    /// A wait begins only right after the cancellation flag was found clear:
    /// between two waits the listener always looks at the flag.
    pub proof fn law_wait_follows_check(self, outcome: ListenerOutcome)
        requires
            self.step(outcome).phase == ListenerPhase::Waiting,
            self.phase != ListenerPhase::Waiting,
        ensures
            self.phase == ListenerPhase::Checking,
            outcome == ListenerOutcome::Checked(false),
    {
    }
}

/// The listener's worker, stepped by the thread that runs it.
pub struct Listener {
    timeout: u128,
    phase: ListenerPhase,
    held: Option<InputEvent>,
    failure: Option<EventListenerError>,
}

impl View for Listener {
    type V = ListenerModel;

    closed spec fn view(&self) -> ListenerModel {
        ListenerModel {
            timeout: self.timeout,
            phase: self.phase,
            held: self.held,
            failure: self.failure,
        }
    }
}

/// A listener that waits for input for at most `timeout` nanoseconds at a
/// time. Its first action is to look at the cancellation flag.
pub fn listen(timeout: u128) -> (listener: Listener)
    ensures
        listener@ == ListenerModel::started(timeout),
{
    Listener { timeout, phase: ListenerPhase::Checking, held: None, failure: None }
}

impl Listener {
    /// The action that the listener is waiting for.
    pub fn awaiting(&self) -> (action: ListenerAction)
        ensures
            action == self@.awaiting(),
    {
        match self.phase {
            ListenerPhase::Checking => ListenerAction::Check,
            ListenerPhase::Waiting => ListenerAction::Wait(self.timeout),
            ListenerPhase::Reading => ListenerAction::Read,
            ListenerPhase::Sending => ListenerAction::Send,
            ListenerPhase::Stopped => ListenerAction::Stop,
        }
    }

    /// Stops the listener with a fault.
    fn fail(&mut self, error: EventListenerError) -> (action: ListenerAction)
        ensures
            final(self)@ == old(self)@.fail(error),
            action == ListenerAction::Stop,
    {
        self.phase = ListenerPhase::Stopped;
        self.held = None;
        self.failure = Some(error);
        ListenerAction::Stop
    }

    /// Goes back to looking at the cancellation flag.
    fn again(&mut self) -> (action: ListenerAction)
        ensures
            final(self)@ == old(self)@.again(),
            action == ListenerAction::Check,
    {
        self.phase = ListenerPhase::Checking;
        self.held = None;
        ListenerAction::Check
    }

    /// Takes in how the action that the listener was waiting for went, and
    /// returns the next action to take. An outcome that does not answer that
    /// action changes nothing, and the same action is returned again.
    pub fn step(&mut self, outcome: ListenerOutcome) -> (action: ListenerAction)
        ensures
            final(self)@ == old(self)@.step(outcome),
            action == final(self)@.awaiting(),
    {
        match outcome {
            ListenerOutcome::Checked(cancelled) => match self.phase {
                ListenerPhase::Checking => {
                    if cancelled {
                        self.phase = ListenerPhase::Stopped;
                    } else {
                        self.phase = ListenerPhase::Waiting;
                    }
                    self.awaiting()
                },
                _ => self.awaiting(),
            },
            ListenerOutcome::Waited(result) => match self.phase {
                ListenerPhase::Waiting => match result {
                    Ok(available) => if available {
                        self.phase = ListenerPhase::Reading;
                        ListenerAction::Read
                    } else {
                        self.again()
                    },
                    Err(error) => self.fail(EventListenerError::ReadError(error)),
                },
                _ => self.awaiting(),
            },
            ListenerOutcome::Read(result) => match self.phase {
                ListenerPhase::Reading => match result {
                    Ok(event) => if event.is_forwarded() {
                        self.held = Some(event);
                        self.phase = ListenerPhase::Sending;
                        ListenerAction::Send
                    } else {
                        self.again()
                    },
                    Err(error) => self.fail(EventListenerError::ReadError(error)),
                },
                _ => self.awaiting(),
            },
            ListenerOutcome::Sent(result) => match self.phase {
                ListenerPhase::Sending => match result {
                    Ok(()) => self.again(),
                    Err(error) => self.fail(EventListenerError::SendError(error)),
                },
                _ => self.awaiting(),
            },
        }
    }

    /// Hands out the event that is to be sent, if one is held. The listener
    /// keeps waiting to hear how the sending went.
    pub fn take_event(&mut self) -> (event: Option<InputEvent>)
        ensures
            event == old(self)@.held,
            final(self)@ == (ListenerModel { held: None, ..old(self)@ }),
    {
        self.held.take()
    }

    /// The listener's result: the fault that stopped it, if one did.
    pub fn finish(self) -> (result: Result<(), EventListenerError>)
        ensures
            result == self@.result(),
    {
        match self.failure {
            Some(error) => Err(error),
            None => Ok(()),
        }
    }
}

} // verus!
