//! The calibration display: a window that fills the projector with one
//! colour while the camera looks for the field, until it is told to close.

use vstd::prelude::*;
use crate::graphics::Rgb;

verus! {

/// The colours that the calibration display can show.
#[derive(Clone, Copy, Debug, PartialEq, Eq, Structural)]
pub enum ScreenColor {
    Black,
    White,
}

impl ScreenColor {
    /// The colour as red, green and blue.
    pub open spec fn rgb(self) -> Rgb {
        match self {
            ScreenColor::Black => Rgb { r: 0, g: 0, b: 0 },
            ScreenColor::White => Rgb { r: 255, g: 255, b: 255 },
        }
    }

    /// The colour as red, green and blue.
    pub fn to_rgb(&self) -> (color: Rgb)
        ensures
            color == self.rgb(),
    {
        match *self {
            ScreenColor::Black => Rgb { r: 0, g: 0, b: 0 },
            ScreenColor::White => Rgb { r: 255, g: 255, b: 255 },
        }
    }
}

/// What the display finds when it looks into its inbox.
#[derive(Clone, Copy, Debug, PartialEq, Eq, Structural)]
pub enum Message {
    /// Nothing has arrived.
    Nothing,
    /// Show this colour from now on.
    Show(ScreenColor),
    /// Close the window and end.
    Terminate,
}

/// The calibration display: it shows a colour, or it has closed.
#[derive(Clone, Copy, Debug, PartialEq, Eq, Structural)]
pub enum Display {
    Showing(ScreenColor),
    Closed,
}

/// Whether a key code read from the window means that a key was pressed.
pub open spec fn is_key_press(key: int) -> bool {
    key > 0 && key != 255
}

/// Whether a key code read from the window means that a key was pressed.
pub fn key_pressed(key: i32) -> (pressed: bool)
    ensures
        pressed == is_key_press(key as int),
{
    key > 0 && key != 255
}

impl Display {
    /// The display after it has looked into its inbox.
    pub open spec fn after_message(self, message: Message) -> Display {
        match (self, message) {
            (Display::Closed, _) => Display::Closed,
            (Display::Showing(_), Message::Terminate) => Display::Closed,
            (Display::Showing(_), Message::Show(color)) => Display::Showing(color),
            (Display::Showing(color), Message::Nothing) => Display::Showing(color),
        }
    }

    /// The display after it has read a key code from its window.
    pub open spec fn after_key(self, key: int) -> Display {
        if is_key_press(key) {
            Display::Closed
        } else {
            self
        }
    }

    /// A display that shows white, as it does until told otherwise.
    pub fn new() -> (display: Display)
        ensures
            display == Display::Showing(ScreenColor::White),
    {
        Display::Showing(ScreenColor::White)
    }

    /// Looks into the inbox: a colour is shown from now on, the order to
    /// terminate closes the display, and nothing leaves it as it is. A
    /// closed display stays closed.
    pub fn on_message(self, message: Message) -> (next: Display)
        ensures
            next == self.after_message(message),
    {
        match self {
            Display::Closed => Display::Closed,
            Display::Showing(color) => match message {
                Message::Terminate => Display::Closed,
                Message::Show(wanted) => Display::Showing(wanted),
                Message::Nothing => Display::Showing(color),
            },
        }
    }

    /// Reads a key code from the window: a pressed key closes the display.
    pub fn on_key(self, key: i32) -> (next: Display)
        ensures
            next == self.after_key(key as int),
    {
        if key_pressed(key) {
            Display::Closed
        } else {
            self
        }
    }
}

/// A display that has closed never shows anything again, whatever arrives.
pub proof fn lemma_closed_stays_closed(message: Message, key: int)
    ensures
        Display::Closed.after_message(message) == Display::Closed,
        Display::Closed.after_key(key) == Display::Closed,
{
}

/// A display that is showing closes on the order to terminate and on a
/// pressed key, and on nothing else.
pub proof fn lemma_closes_on_order_or_key(color: ScreenColor, message: Message, key: int)
    ensures
        Display::Showing(color).after_message(message) == Display::Closed <==> message
            == Message::Terminate,
        Display::Showing(color).after_key(key) == Display::Closed <==> is_key_press(key),
{
}

} // verus!
