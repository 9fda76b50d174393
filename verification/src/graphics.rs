//! Colours and positions of what is drawn on the game canvas.

use vstd::prelude::*;
use crate::geometry::{fits, quotient, Point, Size};

verus! {

/// A colour by its red, green and blue parts.
#[derive(Clone, Copy, Debug, PartialEq, Eq, Structural)]
pub struct Rgb {
    pub r: u8,
    pub g: u8,
    pub b: u8,
}

/// The colour of the empty canvas: black.
pub open spec fn bg_color() -> Rgb {
    Rgb { r: 0, g: 0, b: 0 }
}

/// The colour of the ball: pink.
pub open spec fn obj_color() -> Rgb {
    Rgb { r: 255, g: 153, b: 204 }
}

/// The colour of the score: yellow.
pub open spec fn score_color() -> Rgb {
    Rgb { r: 255, g: 255, b: 0 }
}

/// How a game of a given canvas size is drawn.
#[derive(Clone, Copy, Debug, PartialEq, Eq, Structural)]
pub struct Graphics {
    pub bg_color: Rgb,
    pub obj_color: Rgb,
    pub score_color: Rgb,
    /// Where the left player's score is written.
    pub score_pos_left: Point,
    /// Where the right player's score is written.
    pub score_pos_right: Point,
}

impl Graphics {
    /// Whether the score positions of a canvas of this size can be worked
    /// out in `i32`.
    pub open spec fn can_init(screen: Size) -> bool {
        fits(3 * screen.width) && fits(5 * screen.width)
    }

    /// The colours of the game, and the scores on the upper eighth line of
    /// the canvas, at three and at five eighths of its width.
    pub open spec fn layout(screen: Size) -> Graphics {
        Graphics {
            bg_color: bg_color(),
            obj_color: obj_color(),
            score_color: score_color(),
            score_pos_left: Point {
                x: quotient(3 * screen.width, 8) as i32,
                y: quotient(screen.height as int, 8) as i32,
            },
            score_pos_right: Point {
                x: quotient(5 * screen.width, 8) as i32,
                y: quotient(screen.height as int, 8) as i32,
            },
        }
    }

    /// Whether [`Graphics::init`] may be called for a canvas of this size.
    pub fn fits(screen: Size) -> (ok: bool)
        ensures
            ok == Graphics::can_init(screen),
    {
        let width = screen.width as i64;
        i32::MIN as i64 <= 5 * width && 5 * width <= i32::MAX as i64
    }

    /// Lays out the drawing of a game on a canvas of the given size.
    pub fn init(screen: Size) -> (graphics: Graphics)
        requires
            Graphics::can_init(screen),
        ensures
            graphics == Graphics::layout(screen),
    {
        Graphics {
            bg_color: Rgb { r: 0, g: 0, b: 0 },
            obj_color: Rgb { r: 255, g: 153, b: 204 },
            score_color: Rgb { r: 255, g: 255, b: 0 },
            score_pos_left: Point { x: 3 * screen.width / 8, y: screen.height / 8 },
            score_pos_right: Point { x: 5 * screen.width / 8, y: screen.height / 8 },
        }
    }
}

} // verus!
