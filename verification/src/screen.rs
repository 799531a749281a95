//! Screens: the units of application state that the runtime switches between.

use crate::command::Command;
use crate::message::Message;
use ratatui::Frame;
use vstd::prelude::*;

verus! {

/// Identifies a kind of screen. A screen is registered under its key and is
/// activated by it.
pub type ScreenKey = u64;

/// A unit of application state. The runtime renders the active screen once
/// per iteration and hands it one message per iteration.
pub trait Screen {
    /// Whether the screen, as it is now, has just been told `message`. A
    /// screen that says nothing of itself has been told whatever it was
    /// handed.
    open spec fn told(&self, message: Message) -> bool {
        true
    }

    /// Whether `f` is a surface that this screen has just drawn itself onto.
    /// A screen that says nothing of itself has drawn onto whatever surface it
    /// was handed.
    open spec fn drawn(&self, f: Frame<'_>) -> bool {
        true
    }

    /// Draws the screen onto the surface of one frame.
    fn render(&self, f: &mut Frame<'_>)
        ensures
            self.drawn(*final(f)),
    ;

    /// Takes in one message and may answer with a command for the runtime.
    fn update(&mut self, message: Message) -> (answer: Option<Command>)
        ensures
            final(self).told(message),
    ;
}

/// An owned screen of any kind, together with what it has been told so far.
pub struct BoxedScreen {
    screen: Box<dyn Screen>,
    heard: Ghost<Seq<Message>>,
}

impl BoxedScreen {
    /// The boxed form of `screen`, which has not been told anything yet.
    pub closed spec fn of<S: Screen + 'static>(screen: S) -> BoxedScreen {
        BoxedScreen { screen: Box::new(screen), heard: Ghost(Seq::empty()) }
    }

    /// Whether the screen has just been told `message`.
    pub closed spec fn told(&self, message: Message) -> bool {
        self.screen.told(message)
    }

    /// The messages the screen has been handed since it was boxed, in the
    /// order in which it was handed them.
    pub closed spec fn history(&self) -> Seq<Message> {
        self.heard@
    }

    /// Whether this is what `before` is once it has been handed `message`,
    /// once and nothing else.
    pub open spec fn took(&self, before: BoxedScreen, message: Message) -> bool {
        &&& self.told(message)
        &&& self.history() == before.history().push(message)
    }

    /// Boxes a screen.
    pub fn new<S: Screen + 'static>(screen: S) -> (boxed: BoxedScreen)
        ensures
            boxed == Self::of(screen),
            boxed.history() == Seq::<Message>::empty(),
    {
        BoxedScreen { screen: Box::new(screen), heard: Ghost(Seq::empty()) }
    }

    /// Whether `f` is a surface that the screen has just drawn itself onto.
    pub closed spec fn drawn(&self, f: Frame<'_>) -> bool {
        self.screen.drawn(f)
    }

    /// Draws the screen onto the surface of one frame.
    pub fn render(&self, f: &mut Frame<'_>)
        ensures
            self.drawn(*final(f)),
    {
        self.screen.render(f)
    }

    /// Hands the screen one message and passes on its answer.
    pub(crate) fn update(&mut self, message: Message) -> (answer: Option<Command>)
        ensures
            final(self).took(*old(self), message),
    {
        self.heard = Ghost(self.heard@.push(message));
        self.screen.update(message)
    }
}

} // verus!
