//! Commands: the effects a screen, or the application's startup and shutdown
//! hooks, ask the runtime to carry out.

use crate::screen::ScreenKey;
use vstd::prelude::*;

verus! {

/// `crossterm::Command::write_ansi` with a fresh `String` as the writer: the
/// text that the operation wrote, or `None` where the operation reported a
/// formatting failure. Nothing is claimed of the text.
#[verifier::external_body]
fn write_ansi<C: crossterm::Command>(command: &C) -> Option<String> {
    let mut sequence = String::new();
    match command.write_ansi(&mut sequence) {
        Ok(()) => Some(sequence),
        Err(_) => None,
    }
}

/// What every terminal-control operation can do once its kind is forgotten:
/// write its control sequence. Unlike the capability that operations are
/// defined by, this one has no type parameter, so that a value of it can be
/// held behind one type whatever the operation is.
pub(crate) trait ObjectSafeCommand {
    /// The control sequence that the operation writes, or `None` where the
    /// operation reports a formatting failure.
    fn object_safe_write_ansi(&self) -> Option<String>;
}

/// An operation of some kind, held as the way to write its control sequence.
struct Adapter<F: Fn() -> Option<String>> {
    write: F,
}

impl<F: Fn() -> Option<String>> Adapter<F> {
    /// The operation can be written whenever it is asked to.
    #[verifier::type_invariant]
    spec fn writable(self) -> bool {
        self.write.requires(())
    }
}

impl<F: Fn() -> Option<String>> ObjectSafeCommand for Adapter<F> {
    fn object_safe_write_ansi(&self) -> Option<String> {
        proof {
            use_type_invariant(self);
        }
        (self.write)()
    }
}

/// A terminal-control operation whose concrete kind has been erased, so that
/// operations of any kind can be stored in one type and executed later. The
/// operation itself is kept: its control sequence is written when it is
/// executed, not when it is erased.
pub struct ErasedCommand {
    operation: Box<dyn ObjectSafeCommand>,
}

impl ErasedCommand {
    /// Erases the kind of `command`.
    fn erase<C: crossterm::Command + 'static>(command: C) -> ErasedCommand {
        let write = move || -> (sequence: Option<String>) { write_ansi(&command) };
        ErasedCommand { operation: Box::new(Adapter { write }) }
    }

    /// Has the operation write its control sequence, now. The result is the
    /// sequence to put on the output sink, or `None` where the operation
    /// reports a formatting failure.
    pub fn write_ansi(&self) -> Option<String> {
        self.operation.object_safe_write_ansi()
    }
}

/// An effect for the runtime to carry out.
pub enum Command {
    /// Carry out the commands in order, stopping at the first that fails.
    Batch(Vec<Command>),
    /// Make the screen registered under this key the active one.
    Screen(ScreenKey),
    EnableRawMode,
    DisableRawMode,
    /// Write a terminal-control operation to the output sink.
    Crossterm(ErasedCommand),
    /// Leave the main loop at the top of the next iteration.
    Quit,
}

/// A command that is not a batch: one step of the command interpreter.
pub enum Primitive {
    Screen(ScreenKey),
    EnableRawMode,
    DisableRawMode,
    Crossterm(ErasedCommand),
    Quit,
}

impl Command {
    /// The primitive steps that carrying out this command consists of, in the
    /// order in which they are taken: a batch contributes the steps of its
    /// elements from first to last, any other command itself.
    pub open spec fn flatten(self) -> Seq<Primitive>
        decreases self,
    {
        match self {
            Command::Batch(commands) => Self::flatten_all(commands@),
            Command::Screen(key) => seq![Primitive::Screen(key)],
            Command::EnableRawMode => seq![Primitive::EnableRawMode],
            Command::DisableRawMode => seq![Primitive::DisableRawMode],
            Command::Crossterm(operation) => seq![Primitive::Crossterm(operation)],
            Command::Quit => seq![Primitive::Quit],
        }
    }

    /// The steps of a sequence of commands carried out from first to last.
    pub open spec fn flatten_all(commands: Seq<Command>) -> Seq<Primitive>
        decreases commands,
    {
        if commands.len() == 0 {
            Seq::empty()
        } else {
            Self::flatten_all(commands.drop_last()) + commands.last().flatten()
        }
    }

    /// The steps of a stack of commands, the last element being the top of the
    /// stack and so the first to be carried out.
    pub open spec fn flatten_stack(stack: Seq<Command>) -> Seq<Primitive>
        decreases stack.len(),
    {
        if stack.len() == 0 {
            Seq::empty()
        } else {
            stack.last().flatten() + Self::flatten_stack(stack.drop_last())
        }
    }

    /// The number of commands in this command, nested ones included.
    pub open spec fn weight(self) -> nat
        decreases self,
    {
        match self {
            Command::Batch(commands) => 1 + Self::weight_all(commands@),
            _ => 1,
        }
    }

    /// The number of commands in a sequence of commands, nested ones included.
    pub open spec fn weight_all(commands: Seq<Command>) -> nat
        decreases commands,
    {
        if commands.len() == 0 {
            0
        } else {
            Self::weight_all(commands.drop_last()) + commands.last().weight()
        }
    }

    /// The command that activates the screen registered under `key`.
    pub fn screen(key: ScreenKey) -> (command: Command)
        ensures
            command == Command::Screen(key),
    {
        Command::Screen(key)
    }

    /// The command that writes a terminal-control operation to the output
    /// sink. The operation's kind is erased on the way in.
    pub fn crossterm<C>(command: C) -> (erased: Command) where C: crossterm::Command + 'static
        ensures
            erased is Crossterm,
            erased.flatten().len() == 1,
    {
        Command::Crossterm(ErasedCommand::erase(command))
    }
}

} // verus!
