use std::cell::Cell;
use std::rc::Rc;

use crossterm::cursor::{Hide, MoveTo};
use crossterm::style::Print;
use crossterm::terminal::{Clear, ClearType, EnterAlternateScreen};
use tui_runtime::command::Command;

/// An operation whose own formatting fails.
struct Broken;

impl crossterm::Command for Broken {
    fn write_ansi(&self, _f: &mut impl std::fmt::Write) -> std::fmt::Result {
        Err(std::fmt::Error)
    }
}

/// An operation that writes the number it finds in a cell when it is written.
struct Current(Rc<Cell<u32>>);

impl crossterm::Command for Current {
    fn write_ansi(&self, f: &mut impl std::fmt::Write) -> std::fmt::Result {
        f.write_str(&self.0.get().to_string())
    }
}

fn sequence(command: &Command) -> Option<String> {
    match command {
        Command::Crossterm(operation) => operation.write_ansi(),
        _ => panic!("not a terminal-control command"),
    }
}

#[test]
fn screen_makes_a_switch_to_the_key() {
    assert!(matches!(Command::screen(2), Command::Screen(2)));
    assert!(matches!(Command::screen(0), Command::Screen(0)));
    assert!(!matches!(Command::screen(2), Command::Screen(3)));
}

#[test]
fn crossterm_keeps_the_control_sequence_of_the_operation() {
    assert_eq!(sequence(&Command::crossterm(MoveTo(1, 2))).as_deref(), Some("\u{1b}[3;2H"));
    assert_eq!(sequence(&Command::crossterm(MoveTo(4, 9))).as_deref(), Some("\u{1b}[10;5H"));
    assert_eq!(sequence(&Command::crossterm(Hide)).as_deref(), Some("\u{1b}[?25l"));
    assert_eq!(
        sequence(&Command::crossterm(EnterAlternateScreen)).as_deref(),
        Some("\u{1b}[?1049h")
    );
    assert_eq!(sequence(&Command::crossterm(Clear(ClearType::All))).as_deref(), Some("\u{1b}[2J"));
    assert_eq!(sequence(&Command::crossterm(Print("hello"))).as_deref(), Some("hello"));
}

#[test]
fn operations_of_different_kinds_have_one_type_once_erased() {
    let commands = vec![
        Command::crossterm(MoveTo(0, 0)),
        Command::crossterm(Print(7)),
        Command::crossterm(Hide),
    ];
    let sequences: Vec<Option<String>> = commands.iter().map(sequence).collect();
    assert_eq!(
        sequences,
        vec![
            Some(String::from("\u{1b}[1;1H")),
            Some(String::from("7")),
            Some(String::from("\u{1b}[?25l")),
        ]
    );
}

#[test]
fn an_operation_that_fails_to_format_has_no_sequence() {
    assert_eq!(sequence(&Command::crossterm(Broken)), None);
}

#[test]
fn an_operation_is_written_when_it_is_executed_not_when_it_is_erased() {
    let number = Rc::new(Cell::new(1));
    let command = Command::crossterm(Current(number.clone()));
    number.set(2);
    assert_eq!(sequence(&command).as_deref(), Some("2"));
    number.set(3);
    assert_eq!(sequence(&command).as_deref(), Some("3"));
}
