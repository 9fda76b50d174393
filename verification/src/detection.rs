//! From a four-cornered outline to the playing area.

use vstd::prelude::*;
use crate::corners::{lemma_ordered_corners_sides, order_corners, ordered_corners};
use crate::errors::ErrorKind;
use crate::geometry::{clamped, span, Point, Size};

verus! {

/// A rectangular region that the camera sees: the projected screen or the
/// playing area on it.
#[derive(Clone, Copy, Debug, PartialEq, Eq, Structural)]
pub struct Area {
    /// The top-left corner, in pixels of the camera frame.
    pub origin: Point,
    /// Width and height along the axes of the camera frame.
    pub size: Size,
    /// Width and height of the region once it is straightened; zero as long
    /// as nobody has worked them out.
    pub unwarped_size: Size,
}

/// The area that four ordered corners mark: it starts at the top-left
/// corner, is as wide as the top edge spans in x and as high as the left
/// edge spans in y. It is not straightened yet.
pub open spec fn area_of_corners(c: Seq<Point>) -> Area {
    Area {
        origin: c[0],
        size: Size {
            width: clamped(c[1].x - c[0].x) as i32,
            height: clamped(c[3].y - c[0].y) as i32,
        },
        unwarped_size: Size { width: 0, height: 0 },
    }
}

/// The playing area that an outline marks: an outline of exactly four
/// vertices marks the area of its ordered corners, any other outline none.
pub open spec fn playing_area(polygon: Seq<Point>) -> Option<Area> {
    if polygon.len() == 4 {
        Some(area_of_corners(ordered_corners(polygon)))
    } else {
        None
    }
}

/// Looks for the playing area in one outline found in a camera frame. Only
/// a quadrilateral is accepted; its area is never of negative size.
pub fn detect_playing_area(polygon: &Vec<Point>) -> (area: Option<Area>)
    ensures
        area == playing_area(polygon@),
        area matches Some(a) ==> a.size.width >= 0 && a.size.height >= 0,
{
    if polygon.len() == 4 {
        let roi_corners = order_corners(polygon);
        proof {
            lemma_ordered_corners_sides(polygon@);
        }
        let origin = roi_corners[0];
        let org_size = Size {
            width: span(roi_corners[0].x, roi_corners[1].x),
            height: span(roi_corners[0].y, roi_corners[3].y),
        };
        Some(Area { origin: origin, size: org_size, unwarped_size: Size { width: 0, height: 0 } })
    } else {
        None
    }
}

/// The square of the distance between two points.
pub open spec fn distance_squared(a: Point, b: Point) -> int {
    (a.x - b.x) * (a.x - b.x) + (a.y - b.y) * (a.y - b.y)
}

/// The larger of two numbers.
pub open spec fn larger(a: int, b: int) -> int {
    if a >= b {
        a
    } else {
        b
    }
}

/// The squares of the width and of the height of the rectangle onto which
/// a quadrilateral with corners `c`, ordered clockwise from the top left, is
/// straightened: the width is the longer of the top and the bottom edge, the
/// height the longer of the right and the left edge.
pub open spec fn squared_destination_size(c: Seq<Point>) -> (int, int) {
    (
        larger(distance_squared(c[0], c[1]), distance_squared(c[2], c[3])),
        larger(distance_squared(c[1], c[2]), distance_squared(c[3], c[0])),
    )
}

/// The square of the distance between two points.
pub fn edge_squared(a: Point, b: Point) -> (sq: u128)
    ensures
        sq == distance_squared(a, b),
{
    let dx: i128 = a.x as i128 - b.x as i128;
    let dy: i128 = a.y as i128 - b.y as i128;
    assert(0 <= dx * dx <= 0xffff_ffff * 0xffff_ffff) by (nonlinear_arith)
        requires
            -0xffff_ffff <= dx <= 0xffff_ffff,
    ;
    assert(0 <= dy * dy <= 0xffff_ffff * 0xffff_ffff) by (nonlinear_arith)
        requires
            -0xffff_ffff <= dy <= 0xffff_ffff,
    ;
    (dx * dx + dy * dy) as u128
}

/// The squares of the width and of the height of the rectangle onto which
/// the quadrilateral with the given ordered corners is straightened. The
/// lengths themselves are the square roots of these, which are whole numbers
/// only by chance.
pub fn destination_size_squared(corners: &Vec<Point>) -> (size: (u128, u128))
    requires
        corners.len() == 4,
    ensures
        size.0 == squared_destination_size(corners@).0,
        size.1 == squared_destination_size(corners@).1,
{
    let top = edge_squared(corners[0], corners[1]);
    let bottom = edge_squared(corners[2], corners[3]);
    let right = edge_squared(corners[1], corners[2]);
    let left = edge_squared(corners[3], corners[0]);
    let width = if top >= bottom {
        top
    } else {
        bottom
    };
    let height = if right >= left {
        right
    } else {
        left
    };
    (width, height)
}

/// The squares of the width and of the height of the straightened
/// rectangle for a list of corners of any length: a list of exactly four
/// corners has them, any other list has none.
pub open spec fn squared_destination_size_of(corners: Seq<Point>) -> Option<(int, int)> {
    if corners.len() == 4 {
        Some(squared_destination_size(corners))
    } else {
        None
    }
}

/// The squares of the width and of the height of the rectangle onto which
/// the quadrilateral with the given ordered corners is straightened, or
/// nothing where the list does not hold exactly four corners.
pub fn try_destination_size_squared(corners: &Vec<Point>) -> (size: Option<(u128, u128)>)
    ensures
        match size {
            Some(squares) => squared_destination_size_of(corners@) == Some(
                (squares.0 as int, squares.1 as int),
            ),
            None => squared_destination_size_of(corners@) is None,
        },
{
    if corners.len() == 4 {
        Some(destination_size_squared(corners))
    } else {
        None
    }
}

/// The size of the straightened rectangle does not depend on which side of
/// the quadrilateral is taken for the left and which for the right, nor on
/// which is taken for the top and which for the bottom, as long as each
/// corner keeps its neighbours.
pub proof fn lemma_destination_size_ignores_side(c: Seq<Point>)
    requires
        c.len() == 4,
    ensures
        squared_destination_size(seq![c[1], c[0], c[3], c[2]]) == squared_destination_size(c),
        squared_destination_size(seq![c[3], c[2], c[1], c[0]]) == squared_destination_size(c),
        squared_destination_size(seq![c[2], c[3], c[0], c[1]]) == squared_destination_size(c),
{
    assert forall|a: Point, b: Point| distance_squared(a, b) == distance_squared(b, a) by {
        assert((a.x - b.x) * (a.x - b.x) == (b.x - a.x) * (b.x - a.x)) by (nonlinear_arith);
        assert((a.y - b.y) * (a.y - b.y) == (b.y - a.y) * (b.y - a.y)) by (nonlinear_arith);
    }
}

/// Whether `area` is no wider and no higher than `screen`, as the camera
/// sees them.
pub open spec fn fits_screen(area: Area, screen: Area) -> bool {
    area.size.width <= screen.size.width && area.size.height <= screen.size.height
}

/// The screen and the playing area to play on. Where the game fills the
/// screen no playing area was looked for and the screen is both. Else the
/// playing area found must fit the screen.
pub open spec fn unwarped_areas(screen: Area, playing_area: Option<Area>) -> Result<
    (Area, Area),
    ErrorKind,
> {
    match playing_area {
        None => Ok((screen, screen)),
        Some(area) => if fits_screen(area, screen) {
            Ok((screen, area))
        } else {
            Err(ErrorKind::AreaBiggerThanScreen)
        },
    }
}

/// Pairs the detected screen with the playing area, which is `None` where
/// the game fills the screen, and refuses a playing area that is larger than
/// the screen.
pub fn get_unwarped_areas(screen: Area, playing_area: Option<Area>) -> (areas: Result<
    (Area, Area),
    ErrorKind,
>)
    ensures
        areas == unwarped_areas(screen, playing_area),
{
    match playing_area {
        None => Ok((screen, screen)),
        Some(area) => {
            if area.size.width > screen.size.width || area.size.height > screen.size.height {
                return Err(ErrorKind::AreaBiggerThanScreen);
            }
            Ok((screen, area))
        },
    }
}

} // verus!
