//! Types of other crates and of the standard library that values of this
//! crate carry. They are opaque to the verifier: a value of one of them can be
//! stored, moved and compared in specifications, and nothing is known of what
//! it holds.

use vstd::prelude::*;

verus! {

/// `crossterm::event::KeyCode`: which key an event is about.
#[verifier::external_type_specification]
#[verifier::external_body]
pub struct ExKeyCode(crossterm::event::KeyCode);

/// `crossterm::event::KeyModifiers`: the modifier keys held during an event.
#[verifier::external_type_specification]
#[verifier::external_body]
pub struct ExKeyModifiers(crossterm::event::KeyModifiers);

/// `crossterm::event::KeyEventState`: keyboard state reported with a key event.
#[verifier::external_type_specification]
#[verifier::external_body]
pub struct ExKeyEventState(crossterm::event::KeyEventState);

/// `crossterm::event::MouseEvent`: one mouse event as the terminal reported it.
#[verifier::external_type_specification]
#[verifier::external_body]
pub struct ExMouseEvent(crossterm::event::MouseEvent);

/// `ratatui::Frame`: the drawing surface a screen renders one frame to.
#[verifier::external_type_specification]
#[verifier::external_body]
pub struct ExFrame<'a>(ratatui::Frame<'a>);

/// `std::io::Error`: why a terminal operation failed.
#[verifier::external_type_specification]
#[verifier::external_body]
pub struct ExIoError(std::io::Error);

/// `std::sync::mpsc::SendError`: a value that a closed channel handed back.
#[verifier::external_type_specification]
#[verifier::external_body]
#[verifier::reject_recursive_types(T)]
pub struct ExSendError<T>(std::sync::mpsc::SendError<T>);

} // verus!
