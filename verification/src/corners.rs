//! The corners of a four-cornered outline, in clockwise order.
//!
//! The points of an outline come in no particular order. They are put in
//! order by sorting them from left to right, points at one x from the upper
//! to the lower: the first two are the left side, the other two the right
//! side, and each side is then sorted by y. The corners depend on the four
//! points alone, not on the order in which they are given; this is proved
//! below.

use vstd::prelude::*;
use crate::geometry::Point;

verus! {

/// Whether `q[j]` stands before `q[i]` once the points are sorted from
/// left to right: the smaller x first, at equal x the smaller y first. Of
/// two equal points the one given first stands first.
pub open spec fn stands_before(q: Seq<Point>, j: int, i: int) -> bool {
    q[j].x < q[i].x || (q[j].x == q[i].x && (q[j].y < q[i].y || (q[j].y == q[i].y && j < i)))
}

/// 1 where `q[j]` stands before `q[i]`, else 0.
pub open spec fn one_if_before(q: Seq<Point>, j: int, i: int) -> int {
    if stands_before(q, j, i) {
        1
    } else {
        0
    }
}

/// The place of `q[i]` among four points sorted from left to right: the
/// number of points that stand before it.
pub open spec fn place(q: Seq<Point>, i: int) -> int {
    one_if_before(q, 0, i) + one_if_before(q, 1, i) + one_if_before(q, 2, i) + one_if_before(
        q,
        3,
        i,
    )
}

/// The index in `q` of the point that takes place `k` when four points are
/// sorted from left to right.
pub open spec fn index_at_place(q: Seq<Point>, k: int) -> int {
    if place(q, 0) == k {
        0
    } else if place(q, 1) == k {
        1
    } else if place(q, 2) == k {
        2
    } else {
        3
    }
}

/// The point that takes place `k` when four points are sorted from left to
/// right.
pub open spec fn at_place(q: Seq<Point>, k: int) -> Point {
    q[index_at_place(q, k)]
}

/// Two points with the upper one (smaller y) first; of two at the same
/// height the first given stays first.
pub open spec fn upper_first(a: Point, b: Point) -> (Point, Point) {
    if b.y < a.y {
        (b, a)
    } else {
        (a, b)
    }
}

/// Four corners in clockwise order from the top left: top left, top right,
/// bottom right, bottom left. The two leftmost points are the left side,
/// the other two the right side; on each side the upper point comes first,
/// and of two points at one height the one further left.
pub open spec fn ordered_corners(q: Seq<Point>) -> Seq<Point> {
    let left = upper_first(at_place(q, 0), at_place(q, 1));
    let right = upper_first(at_place(q, 2), at_place(q, 3));
    seq![left.0, right.0, right.1, left.1]
}

/// Whether `a` lies right of `b`, or at the same x and below it.
pub open spec fn lies_after(a: Point, b: Point) -> bool {
    a.x > b.x || (a.x == b.x && a.y > b.y)
}

/// Whether `a` lies right of `b`, or at the same x and below it.
fn after(a: Point, b: Point) -> (is_after: bool)
    ensures
        is_after == lies_after(a, b),
{
    a.x > b.x || (a.x == b.x && a.y > b.y)
}

/// Orders the four corners of an outline clockwise from the top left.
pub fn order_corners(vec: &Vec<Point>) -> (corners: Vec<Point>)
    requires
        vec.len() == 4,
    ensures
        corners@ == ordered_corners(vec@),
{
    let mut a = vec[0];
    let mut b = vec[1];
    let mut c = vec[2];
    let mut d = vec[3];
    // Sort from left to right, moving a point only past points that lie after it.
    if after(a, b) {
        let t = a;
        a = b;
        b = t;
    }
    if after(b, c) {
        let t = b;
        b = c;
        c = t;
        if after(a, b) {
            let t = a;
            a = b;
            b = t;
        }
    }
    if after(c, d) {
        let t = c;
        c = d;
        d = t;
        if after(b, c) {
            let t = b;
            b = c;
            c = t;
            if after(a, b) {
                let t = a;
                a = b;
                b = t;
            }
        }
    }
    assert(a == at_place(vec@, 0));
    assert(b == at_place(vec@, 1));
    assert(c == at_place(vec@, 2));
    assert(d == at_place(vec@, 3));
    // On each side, the upper point first.
    if a.y > b.y {
        let t = a;
        a = b;
        b = t;
    }
    if c.y > d.y {
        let t = c;
        c = d;
        d = t;
    }
    let mut corners = Vec::with_capacity(4);
    corners.push(a);
    corners.push(c);
    corners.push(d);
    corners.push(b);
    assert(corners@ =~= ordered_corners(vec@));
    corners
}

/// Whether `a, b, c, d` are the indices 0 to 3 in some order.
pub open spec fn is_arrangement(a: int, b: int, c: int, d: int) -> bool {
    &&& 0 <= a < 4 && 0 <= b < 4 && 0 <= c < 4 && 0 <= d < 4
    &&& a != b && a != c && a != d && b != c && b != d && c != d
}

/// Sorting four points from left to right gives each of them one place of
/// its own; no point stands before one that lies further left, or at the same
/// x and higher.
pub proof fn lemma_places_sort(q: Seq<Point>)
    requires
        q.len() == 4,
    ensures
        is_arrangement(
            index_at_place(q, 0),
            index_at_place(q, 1),
            index_at_place(q, 2),
            index_at_place(q, 3),
        ),
        forall|k: int| 0 <= k < 4 ==> place(q, #[trigger] index_at_place(q, k)) == k,
        !lies_after(at_place(q, 0), at_place(q, 1)),
        !lies_after(at_place(q, 1), at_place(q, 2)),
        !lies_after(at_place(q, 2), at_place(q, 3)),
{
}

/// The ordered corners are the four given points, each once; no left corner
/// lies right of a right corner, and on each side the top corner is not below
/// the bottom one.
pub proof fn lemma_ordered_corners_sides(q: Seq<Point>)
    requires
        q.len() == 4,
    ensures
        ordered_corners(q).len() == 4,
        exists|a: int, b: int, c: int, d: int|
            is_arrangement(a, b, c, d) && ordered_corners(q) == seq![q[a], q[b], q[c], q[d]],
        ordered_corners(q)[0].x <= ordered_corners(q)[1].x,
        ordered_corners(q)[0].x <= ordered_corners(q)[2].x,
        ordered_corners(q)[3].x <= ordered_corners(q)[1].x,
        ordered_corners(q)[3].x <= ordered_corners(q)[2].x,
        ordered_corners(q)[0].y <= ordered_corners(q)[3].y,
        ordered_corners(q)[1].y <= ordered_corners(q)[2].y,
{
    lemma_places_sort(q);
    let i0 = index_at_place(q, 0);
    let i1 = index_at_place(q, 1);
    let i2 = index_at_place(q, 2);
    let i3 = index_at_place(q, 3);
    let (a, d) = if q[i1].y < q[i0].y {
        (i1, i0)
    } else {
        (i0, i1)
    };
    let (b, c) = if q[i3].y < q[i2].y {
        (i3, i2)
    } else {
        (i2, i3)
    };
    assert(ordered_corners(q) =~= seq![q[a], q[b], q[c], q[d]]);
    assert(is_arrangement(a, b, c, d));
}

/// Four points with the two at `i` and `i + 1` exchanged.
spec fn exchanged(q: Seq<Point>, i: int) -> Seq<Point> {
    if i == 0 {
        seq![q[1], q[0], q[2], q[3]]
    } else if i == 1 {
        seq![q[0], q[2], q[1], q[3]]
    } else {
        seq![q[0], q[1], q[3], q[2]]
    }
}

proof fn lemma_exchange_first(q: Seq<Point>)
    requires
        q.len() == 4,
    ensures
        ordered_corners(exchanged(q, 0)) == ordered_corners(q),
{
    assert(ordered_corners(exchanged(q, 0)) =~= ordered_corners(q));
}

proof fn lemma_exchange_middle(q: Seq<Point>)
    requires
        q.len() == 4,
    ensures
        ordered_corners(exchanged(q, 1)) == ordered_corners(q),
{
    assert(ordered_corners(exchanged(q, 1)) =~= ordered_corners(q));
}

proof fn lemma_exchange_last(q: Seq<Point>)
    requires
        q.len() == 4,
    ensures
        ordered_corners(exchanged(q, 2)) == ordered_corners(q),
{
    assert(ordered_corners(exchanged(q, 2)) =~= ordered_corners(q));
}

/// Whether `r` has the same corners as `q`.
#[verifier::opaque]
spec fn same_corners(q: Seq<Point>, r: Seq<Point>) -> bool {
    ordered_corners(r) == ordered_corners(q)
}

proof fn lemma_same_corners_itself(q: Seq<Point>)
    ensures
        same_corners(q, q),
{
    reveal(same_corners);
}

proof fn lemma_same_corners_exchange(q: Seq<Point>, r: Seq<Point>, i: int)
    requires
        r.len() == 4,
        0 <= i < 3,
        same_corners(q, r),
    ensures
        same_corners(q, exchanged(r, i)),
{
    reveal(same_corners);
    if i == 0 {
        lemma_exchange_first(r);
    } else if i == 1 {
        lemma_exchange_middle(r);
    } else {
        lemma_exchange_last(r);
    }
}

/// Four points with the one at `i` moved to position `to`, the points
/// between them each shifted one place toward the back.
spec fn brought_forward(q: Seq<Point>, i: int, to: int) -> Seq<Point>
    decreases i - to,
{
    if i <= to {
        q
    } else {
        brought_forward(exchanged(q, i - 1), i - 1, to)
    }
}

proof fn lemma_bring_forward(q: Seq<Point>, r: Seq<Point>, i: int, to: int)
    requires
        r.len() == 4,
        0 <= to <= i < 4,
        same_corners(q, r),
    ensures
        same_corners(q, brought_forward(r, i, to)),
        brought_forward(r, i, to).len() == 4,
        forall|k: int| 0 <= k < to ==> brought_forward(r, i, to)[k] == r[k],
        brought_forward(r, i, to)[to] == r[i],
        forall|k: int| to < k <= i ==> brought_forward(r, i, to)[k] == r[k - 1],
        forall|k: int| i < k < 4 ==> brought_forward(r, i, to)[k] == r[k],
    decreases i - to,
{
    if i > to {
        lemma_same_corners_exchange(q, r, i - 1);
        lemma_bring_forward(q, exchanged(r, i - 1), i - 1, to);
    }
}

proof fn lemma_same_corners_arrangement(q: Seq<Point>, a: int, b: int, c: int, d: int)
    requires
        q.len() == 4,
        is_arrangement(a, b, c, d),
    ensures
        same_corners(q, seq![q[a], q[b], q[c], q[d]]),
{
    lemma_same_corners_itself(q);
    let first = brought_forward(q, a, 0);
    lemma_bring_forward(q, q, a, 0);
    let at_b = if b < a {
        b + 1
    } else {
        b
    };
    let second = brought_forward(first, at_b, 1);
    lemma_bring_forward(q, first, at_b, 1);
    let moved_c = if c < a {
        c + 1
    } else {
        c
    };
    let at_c = if moved_c < at_b {
        moved_c + 1
    } else {
        moved_c
    };
    let third = brought_forward(second, at_c, 2);
    lemma_bring_forward(q, second, at_c, 2);
    assert(third =~= seq![q[a], q[b], q[c], q[d]]);
}

/// The corners come out the same in whatever order the four points of an
/// outline are given.
pub proof fn lemma_order_corners_ignores_order(q: Seq<Point>, a: int, b: int, c: int, d: int)
    requires
        q.len() == 4,
        is_arrangement(a, b, c, d),
    ensures
        ordered_corners(seq![q[a], q[b], q[c], q[d]]) == ordered_corners(q),
{
    lemma_same_corners_arrangement(q, a, b, c, d);
    reveal(same_corners);
}

} // verus!
