use std::cell::RefCell;
use std::collections::HashMap;
use std::rc::Rc;

use tui_runtime::application::MissingScreenError;
use tui_runtime::command::Command;
use tui_runtime::message::Message;
use tui_runtime::screen::{BoxedScreen, Screen, ScreenKey};
use tui_runtime::slots::Slots;

/// A screen that writes down, under its name, every message it is handed.
struct Recorder {
    name: &'static str,
    log: Rc<RefCell<Vec<(&'static str, Message)>>>,
}

impl Screen for Recorder {
    fn render(&self, _f: &mut ratatui::Frame<'_>) {}

    fn update(&mut self, message: Message) -> Option<Command> {
        self.log.borrow_mut().push((self.name, message));
        None
    }
}

/// A screen with state of its own: it counts the messages it has taken in and
/// answers with a switch to the screen whose key is that count.
struct Counter {
    count: u64,
}

impl Screen for Counter {
    fn render(&self, _f: &mut ratatui::Frame<'_>) {}

    fn update(&mut self, _message: Message) -> Option<Command> {
        self.count += 1;
        Some(Command::Screen(self.count))
    }
}

fn recorders(
    names: &[(ScreenKey, &'static str)],
) -> (Slots, Rc<RefCell<Vec<(&'static str, Message)>>>) {
    let log = Rc::new(RefCell::new(Vec::new()));
    let mut registry = HashMap::new();
    for (key, name) in names {
        registry.insert(*key, BoxedScreen::new(Recorder { name, log: log.clone() }));
    }
    (Slots::new(registry), log)
}

fn places(slots: &Slots) -> (usize, Option<ScreenKey>, Option<ScreenKey>) {
    (slots.registered(), slots.active_key(), slots.previous_key())
}

#[test]
fn new_slots_hold_every_screen_in_the_registry() {
    let (slots, _) = recorders(&[(1, "a"), (2, "b")]);
    assert_eq!(places(&slots), (2, None, None));
    assert!(slots.is_registered(1));
    assert!(slots.is_registered(2));
    assert!(!slots.is_registered(3));
    assert!(slots.active_screen().is_none());
}

#[test]
fn activating_a_key_that_was_never_registered_is_a_fault() {
    let (mut slots, _) = recorders(&[(1, "a"), (2, "b")]);
    assert_eq!(slots.activate_screen(1), Ok(()));
    assert_eq!(slots.activate_screen(2), Ok(()));
    assert_eq!(places(&slots), (0, Some(2), Some(1)));

    assert_eq!(slots.activate_screen(99), Err(MissingScreenError(99)));
    assert_eq!(places(&slots), (0, Some(2), Some(1)));
}

#[test]
fn a_failed_switch_on_fresh_slots_activates_nothing() {
    let (mut slots, _) = recorders(&[(1, "a")]);
    assert_eq!(slots.activate_screen(99), Err(MissingScreenError(99)));
    assert_eq!(places(&slots), (1, None, None));
    assert!(slots.is_registered(1));
}

#[test]
fn a_switch_moves_the_active_screen_to_the_previous_slot() {
    let (mut slots, log) = recorders(&[(1, "a"), (2, "b")]);
    assert_eq!(slots.activate_screen(1), Ok(()));
    assert_eq!(places(&slots), (1, Some(1), None));
    assert!(slots.is_registered(2));

    assert_eq!(slots.activate_screen(2), Ok(()));
    assert_eq!(places(&slots), (0, Some(2), Some(1)));

    assert!(slots.update_active(Message::Tick).is_none());
    assert_eq!(*log.borrow(), vec![("b", Message::Tick)]);
}

#[test]
fn the_previous_screen_is_not_in_the_registry() {
    let (mut slots, _) = recorders(&[(1, "a"), (2, "b")]);
    assert_eq!(slots.activate_screen(1), Ok(()));
    assert_eq!(slots.activate_screen(2), Ok(()));

    // Screen 1 sits in the previous slot, so the registry cannot give it.
    assert_eq!(slots.activate_screen(1), Err(MissingScreenError(1)));
    assert_eq!(places(&slots), (0, Some(2), Some(1)));
    // Nor can it give the active screen.
    assert_eq!(slots.activate_screen(2), Err(MissingScreenError(2)));
    assert_eq!(places(&slots), (0, Some(2), Some(1)));
}

#[test]
fn the_screen_before_the_previous_one_goes_back_to_the_registry() {
    let (mut slots, _) = recorders(&[(1, "a"), (2, "b"), (3, "c")]);
    assert_eq!(slots.activate_screen(1), Ok(()));
    assert_eq!(slots.activate_screen(2), Ok(()));
    assert_eq!(slots.activate_screen(3), Ok(()));
    assert_eq!(places(&slots), (1, Some(3), Some(2)));
    assert!(slots.is_registered(1));

    assert_eq!(slots.activate_screen(1), Ok(()));
    assert_eq!(places(&slots), (1, Some(1), Some(3)));
    assert!(slots.is_registered(2));
}

#[test]
fn a_screen_is_the_same_instance_after_a_round_trip() {
    let mut registry = HashMap::new();
    registry.insert(1, BoxedScreen::new(Counter { count: 40 }));
    registry.insert(2, BoxedScreen::new(Counter { count: 0 }));
    registry.insert(3, BoxedScreen::new(Counter { count: 0 }));
    let mut slots = Slots::new(registry);

    assert_eq!(slots.activate_screen(1), Ok(()));
    assert!(matches!(slots.update_active(Message::Tick), Some(Command::Screen(41))));

    // Through the previous slot and the registry, and back.
    assert_eq!(slots.activate_screen(2), Ok(()));
    assert!(matches!(slots.update_active(Message::Tick), Some(Command::Screen(1))));
    assert_eq!(slots.activate_screen(3), Ok(()));
    assert_eq!(slots.activate_screen(1), Ok(()));

    assert_eq!(slots.active_key(), Some(1));
    assert!(matches!(slots.update_active(Message::Tick), Some(Command::Screen(42))));
}

#[test]
fn no_screen_is_gained_or_lost_by_switching() {
    let (mut slots, _) = recorders(&[(1, "a"), (2, "b"), (3, "c"), (4, "d")]);
    let switches: [ScreenKey; 12] = [1, 2, 2, 9, 3, 1, 4, 4, 2, 3, 0, 1];
    for key in switches {
        let _ = slots.activate_screen(key);
        let (registered, active, previous) = places(&slots);
        let held = registered + active.iter().count() + previous.iter().count();
        assert_eq!(held, 4);
        for key in [1, 2, 3, 4] {
            let here = [
                slots.is_registered(key),
                active == Some(key),
                previous == Some(key),
            ];
            assert_eq!(here.iter().filter(|place| **place).count(), 1);
        }
    }
}

#[test]
fn update_active_without_a_screen_answers_nothing() {
    let (mut slots, log) = recorders(&[(1, "a")]);
    assert!(slots.update_active(Message::Tick).is_none());
    assert!(log.borrow().is_empty());
    assert_eq!(places(&slots), (1, None, None));
}

#[test]
fn shutdown_is_told_to_the_registry_only() {
    let (mut slots, log) = recorders(&[(1, "a"), (2, "b"), (3, "c"), (4, "d")]);
    assert_eq!(slots.activate_screen(1), Ok(()));
    assert_eq!(slots.activate_screen(2), Ok(()));

    slots.shutdown_screens();

    let mut told = log.borrow().clone_names();
    told.sort();
    assert_eq!(told, vec!["c", "d"]);
    assert!(log.borrow().iter().all(|(_, message)| *message == Message::Shutdown));
    assert_eq!(places(&slots), (2, Some(2), Some(1)));
    assert!(slots.is_registered(3));
    assert!(slots.is_registered(4));
}

trait Names {
    fn clone_names(&self) -> Vec<&'static str>;
}

impl Names for Vec<(&'static str, Message)> {
    fn clone_names(&self) -> Vec<&'static str> {
        self.iter().map(|(name, _)| *name).collect()
    }
}
