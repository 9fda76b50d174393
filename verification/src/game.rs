//! The ball, the score and the rules of one tick of the game.
//!
//! Positions and speeds are whole pixels. One tick moves the ball by its
//! velocity, bounces it off the walls, pushes it out of every shape it
//! overlaps, counts a point where it left the canvas and serves it again
//! from the centre. Whether and how deep the ball overlaps a shape is
//! measured outside this crate, on real-valued shapes, and arrives here as
//! a list of [`Contact`]s.

use vstd::prelude::*;
use rand::Rng;
use crate::geometry::{fits, quotient, Point, Size};
use crate::graphics::{Graphics, Rgb};

verus! {

/// One of the two players, named by the side of the canvas they defend.
#[derive(Clone, Copy, Debug, PartialEq, Eq, Structural)]
pub enum Player {
    Left,
    Right,
}

impl Player {
    /// The player on the other side.
    pub open spec fn opponent(self) -> Player {
        match self {
            Player::Left => Player::Right,
            Player::Right => Player::Left,
        }
    }
}

/// One overlap of the ball with a shape, in whole pixels.
#[derive(Clone, Copy, Debug, PartialEq, Eq, Structural)]
pub struct Contact {
    /// How deep the ball reaches into the shape, rounded, without sign.
    pub depth: i32,
    /// The x part of the contact normal, rounded, without sign.
    pub normal_x: i32,
    /// The y part of the contact normal, rounded, without sign.
    pub normal_y: i32,
}

impl Contact {
    /// Whether the normal points straight up or down: the ball met a
    /// horizontal edge.
    pub open spec fn is_vertical(self) -> bool {
        self.normal_x == 0 && self.normal_y == 1
    }

    /// Whether the normal points straight left or right: the ball met a
    /// vertical edge.
    pub open spec fn is_horizontal(self) -> bool {
        self.normal_x == 1 && self.normal_y == 0
    }
}

/// -1, 0 or 1 as `v` is negative, zero or positive.
pub open spec fn sign(v: int) -> int {
    if v > 0 {
        1
    } else if v < 0 {
        -1
    } else {
        0
    }
}

/// `v` without its sign.
pub open spec fn magnitude(v: int) -> int {
    if v < 0 {
        -v
    } else {
        v
    }
}

/// Whether the sign of `v` can be turned round in `i32`.
pub open spec fn can_flip(v: int) -> bool {
    i32::MIN < v <= i32::MAX
}

/// The ball as the rules see it: position, velocity per tick, radius, and
/// the side from which the next serve starts.
pub struct BallState {
    pub x: int,
    pub y: int,
    pub vel_x: int,
    pub vel_y: int,
    pub radius: int,
    pub starting_side: Player,
}

impl BallState {
    /// The ball one step of its velocity further.
    pub open spec fn translated(self) -> BallState {
        BallState { x: self.x + self.vel_x, y: self.y + self.vel_y, ..self }
    }

    /// Whether the step stays in the range of `i32`.
    pub open spec fn can_translate(self) -> bool {
        fits(self.x + self.vel_x) && fits(self.y + self.vel_y)
    }

    /// Whether the upper edge of the ball is at or above the top of the
    /// canvas.
    pub open spec fn at_top(self) -> bool {
        self.y - self.radius <= 0
    }

    /// Whether the lower edge of the ball is at or below the bottom of the
    /// canvas.
    pub open spec fn at_bottom(self, screen: Size) -> bool {
        self.y + self.radius >= screen.height
    }

    /// Whether the right edge of the ball is at or beyond the right side of
    /// the canvas.
    pub open spec fn at_right(self, screen: Size) -> bool {
        self.x + self.radius >= screen.width
    }

    /// The ball thrown back by the top wall: it now flies the other way
    /// vertically and stands one pixel lower.
    pub open spec fn off_top(self) -> BallState {
        if self.at_top() {
            BallState { vel_y: -self.vel_y, y: self.y + 1, ..self }
        } else {
            self
        }
    }

    /// The ball thrown back by the bottom wall: it now flies the other way
    /// vertically and stands one pixel higher.
    pub open spec fn off_bottom(self, screen: Size) -> BallState {
        if self.at_bottom(screen) {
            BallState { vel_y: -self.vel_y, y: self.y - 1, ..self }
        } else {
            self
        }
    }

    /// The ball thrown back by the right wall, which is there for a single
    /// player only: it now flies the other way horizontally and stands one
    /// pixel further left.
    pub open spec fn off_right(self, screen: Size, single_player: bool) -> BallState {
        if single_player && self.at_right(screen) {
            BallState { vel_x: -self.vel_x, x: self.x - 1, ..self }
        } else {
            self
        }
    }

    /// The ball after the walls had their say: top first, then bottom, then
    /// the right wall.
    pub open spec fn walled(self, screen: Size, single_player: bool) -> BallState {
        self.off_top().off_bottom(screen).off_right(screen, single_player)
    }

    /// Whether meeting the top wall stays in the range of `i32`.
    pub open spec fn can_meet_top(self) -> bool {
        fits(self.y - self.radius) && (self.at_top() ==> can_flip(self.vel_y) && fits(self.y + 1))
    }

    /// Whether meeting the bottom wall stays in the range of `i32`.
    pub open spec fn can_meet_bottom(self, screen: Size) -> bool {
        fits(self.y + self.radius) && (self.at_bottom(screen) ==> can_flip(self.vel_y) && fits(
            self.y - 1,
        ))
    }

    /// Whether meeting the right wall stays in the range of `i32`.
    pub open spec fn can_meet_right(self, screen: Size, single_player: bool) -> bool {
        single_player ==> fits(self.x + self.radius) && (self.at_right(screen) ==> can_flip(
            self.vel_x,
        ) && fits(self.x - 1))
    }

    /// Whether meeting the walls, one after the other, stays in the range of
    /// `i32`.
    pub open spec fn can_wall(self, screen: Size, single_player: bool) -> bool {
        &&& self.can_meet_top()
        &&& self.off_top().can_meet_bottom(screen)
        &&& self.off_top().off_bottom(screen).can_meet_right(screen, single_player)
    }

    /// The ball moved back against its direction of travel by the depth of
    /// the contact, on each axis on which it travels.
    pub open spec fn pushed_out(self, contact: Contact) -> BallState {
        BallState {
            x: self.x - contact.depth * sign(self.vel_x),
            y: self.y - contact.depth * sign(self.vel_y),
            ..self
        }
    }

    /// The ball thrown back by what it touched: vertically by a horizontal
    /// edge, horizontally by a vertical edge, both ways by a corner.
    pub open spec fn deflected(self, contact: Contact) -> BallState {
        if contact.is_vertical() {
            BallState { vel_y: -self.vel_y, ..self }
        } else if contact.is_horizontal() {
            BallState { vel_x: -self.vel_x, ..self }
        } else {
            BallState { vel_x: -self.vel_x, vel_y: -self.vel_y, ..self }
        }
    }

    /// The ball after one contact: pushed out, then thrown back.
    pub open spec fn after_contact(self, contact: Contact) -> BallState {
        self.pushed_out(contact).deflected(contact)
    }

    /// Whether resolving one contact stays in the range of `i32`.
    pub open spec fn can_resolve(self, contact: Contact) -> bool {
        &&& fits(contact.depth * sign(self.vel_x))
        &&& fits(self.x - contact.depth * sign(self.vel_x))
        &&& fits(contact.depth * sign(self.vel_y))
        &&& fits(self.y - contact.depth * sign(self.vel_y))
        &&& (contact.is_vertical() ==> can_flip(self.vel_y))
        &&& (!contact.is_vertical() ==> can_flip(self.vel_x))
        &&& (!contact.is_vertical() && !contact.is_horizontal() ==> can_flip(self.vel_y))
    }

    /// The ball after all contacts of a tick, each resolved on what the
    /// ones before it left.
    pub open spec fn collided(self, contacts: Seq<Contact>) -> BallState
        decreases contacts.len(),
    {
        if contacts.len() == 0 {
            self
        } else {
            self.collided(contacts.drop_last()).after_contact(contacts.last())
        }
    }

    /// Whether resolving all contacts in turn stays in the range of `i32`.
    pub open spec fn can_collide(self, contacts: Seq<Contact>) -> bool
        decreases contacts.len(),
    {
        if contacts.len() == 0 {
            true
        } else {
            self.can_collide(contacts.drop_last()) && self.collided(
                contacts.drop_last(),
            ).can_resolve(contacts.last())
        }
    }

    /// The ball served again: in the centre of the canvas, flying at the
    /// given speeds, horizontally away from the side whose turn it is to
    /// start, and down. The turn passes to the other side.
    pub open spec fn served(self, screen: Size, speed_x: int, speed_y: int) -> BallState {
        BallState {
            x: quotient(screen.width as int, 2),
            y: quotient(screen.height as int, 2),
            vel_x: if self.starting_side == Player::Right {
                -speed_x
            } else {
                speed_x
            },
            vel_y: speed_y,
            radius: self.radius,
            starting_side: self.starting_side.opponent(),
        }
    }

    /// A new ball in the centre of the canvas, ten pixels in radius, flying
    /// right and down at the given speeds; the first serve starts from the
    /// right.
    pub open spec fn fresh(screen: Size, vel_x: int, vel_y: int) -> BallState {
        BallState {
            x: quotient(screen.width as int, 2),
            y: quotient(screen.height as int, 2),
            vel_x: vel_x,
            vel_y: vel_y,
            radius: 10,
            starting_side: Player::Right,
        }
    }
}

/// The ball of the game.
#[derive(Clone, Copy, Debug, PartialEq, Eq, Structural)]
pub struct Ball {
    pub x: i32,
    pub y: i32,
    pub vel_x: i32,
    pub vel_y: i32,
    pub radius: i32,
    pub starting_side: Player,
}

impl View for Ball {
    type V = BallState;

    open spec fn view(&self) -> BallState {
        BallState {
            x: self.x as int,
            y: self.y as int,
            vel_x: self.vel_x as int,
            vel_y: self.vel_y as int,
            radius: self.radius as int,
            starting_side: self.starting_side,
        }
    }
}

/// Draws a whole number from `low` up to, not including, `high`, by
/// `Rng::gen_range` on the generator that `thread_rng` of the `rand` crate
/// hands out. `gen_range` panics on an empty range, which `low < high` rules
/// out. Nothing is promised about which number of the range comes out, nor
/// that two draws agree.
#[verifier::external_body]
fn random_speed(low: i32, high: i32) -> (speed: i32)
    requires
        low < high,
    ensures
        low <= speed < high,
{
    rand::thread_rng().gen_range(low..high)
}

/// -1, 0 or 1 as `v` is negative, zero or positive.
pub fn signum(v: i32) -> (s: i32)
    ensures
        s == sign(v as int),
{
    if v > 0 {
        1
    } else if v < 0 {
        -1
    } else {
        0
    }
}

impl Ball {
    /// A ball in the centre of the canvas that flies right and down at a
    /// speed drawn by chance from 20 to 29 pixels per tick on each axis.
    pub fn new(screen_size: Size) -> (ball: Ball)
        ensures
            20 <= ball.vel_x < 30,
            20 <= ball.vel_y < 30,
            ball@ == BallState::fresh(screen_size, ball.vel_x as int, ball.vel_y as int),
    {
        let vel_x = random_speed(20, 30);
        let vel_y = random_speed(20, 30);
        Ball::with_velocity(screen_size, vel_x, vel_y)
    }

    /// A ball in the centre of the canvas with the given velocity.
    pub fn with_velocity(screen_size: Size, vel_x: i32, vel_y: i32) -> (ball: Ball)
        ensures
            ball@ == BallState::fresh(screen_size, vel_x as int, vel_y as int),
    {
        Ball {
            x: screen_size.width / 2,
            y: screen_size.height / 2,
            vel_x: vel_x,
            vel_y: vel_y,
            radius: 10,
            starting_side: Player::Right,
        }
    }

    /// Moves the ball by its velocity.
    pub fn translate(&mut self)
        requires
            old(self)@.can_translate(),
        ensures
            final(self)@ == old(self)@.translated(),
    {
        self.x += self.vel_x;
        self.y += self.vel_y;
    }

    /// Whether [`Ball::translate`] may be called.
    pub fn can_translate(&self) -> (ok: bool)
        ensures
            ok == self@.can_translate(),
    {
        in_range(self.x as i64 + self.vel_x as i64) && in_range(self.y as i64 + self.vel_y as i64)
    }

    /// Serves the ball again from the centre of the canvas, at a speed drawn
    /// by chance from 15 to 24 pixels per tick on each axis. Only the speeds
    /// are left to chance: the ball flies away from the side whose turn it is
    /// to start, and always down.
    pub fn reset(&mut self, screen: Size)
        ensures
            15 <= magnitude(final(self).vel_x as int) < 25,
            15 <= final(self).vel_y < 25,
            final(self)@ == old(self)@.served(
                screen,
                magnitude(final(self).vel_x as int),
                final(self).vel_y as int,
            ),
    {
        let speed_x = random_speed(15, 25);
        let speed_y = random_speed(15, 25);
        self.serve(screen, speed_x, speed_y);
    }

    /// Serves the ball again from the centre of the canvas at the given
    /// speeds, away from the side whose turn it is to start.
    pub fn serve(&mut self, screen: Size, speed_x: i32, speed_y: i32)
        requires
            can_flip(speed_x as int),
        ensures
            final(self)@ == old(self)@.served(screen, speed_x as int, speed_y as int),
    {
        self.x = screen.width / 2;
        self.y = screen.height / 2;
        self.vel_x = speed_x;
        self.vel_y = speed_y;
        match self.starting_side {
            Player::Right => {
                assert(self.vel_x * -1 == -self.vel_x) by (nonlinear_arith);
                self.vel_x *= -1;
                self.starting_side = Player::Left;
            },
            Player::Left => {
                self.starting_side = Player::Right;
            },
        }
    }

    /// Bounces the ball off the top and the bottom of the canvas and, for a
    /// single player, off its right side.
    pub fn wall_collision(&mut self, screen: Size, single_player: bool)
        requires
            old(self)@.can_wall(screen, single_player),
        ensures
            final(self)@ == old(self)@.walled(screen, single_player),
    {
        if self.y - self.radius <= 0 {
            assert(self.vel_y * -1 == -self.vel_y) by (nonlinear_arith);
            self.vel_y *= -1;
            self.y += 1;
        }
        if self.y + self.radius >= screen.height {
            assert(self.vel_y * -1 == -self.vel_y) by (nonlinear_arith);
            self.vel_y *= -1;
            self.y -= 1;
        }
        if single_player {
            if self.x + self.radius >= screen.width {
                assert(self.vel_x * -1 == -self.vel_x) by (nonlinear_arith);
                self.vel_x *= -1;
                self.x -= 1;
            }
        }
    }

    /// Whether [`Ball::wall_collision`] may be called.
    pub fn can_wall(&self, screen: Size, single_player: bool) -> (ok: bool)
        ensures
            ok == self@.can_wall(screen, single_player),
    {
        let mut y = self.y as i64;
        let mut vel_y = self.vel_y as i64;
        let radius = self.radius as i64;
        if !in_range(y - radius) {
            return false;
        }
        if y - radius <= 0 {
            if vel_y == i32::MIN as i64 || !in_range(y + 1) {
                return false;
            }
            vel_y = -vel_y;
            y = y + 1;
        }
        if !in_range(y + radius) {
            return false;
        }
        if y + radius >= screen.height as i64 {
            if vel_y == i32::MIN as i64 || !in_range(y - 1) {
                return false;
            }
        }
        if single_player {
            let x = self.x as i64;
            if !in_range(x + radius) {
                return false;
            }
            if x + radius >= screen.width as i64 {
                if self.vel_x == i32::MIN || !in_range(x - 1) {
                    return false;
                }
            }
        }
        true
    }

    /// Pushes the ball out of one shape and throws it back.
    pub fn resolve_contact(&mut self, contact: Contact)
        requires
            old(self)@.can_resolve(contact),
        ensures
            final(self)@ == old(self)@.after_contact(contact),
    {
        let depth = contact.depth;
        let toward_x = signum(self.vel_x);
        let toward_y = signum(self.vel_y);
        assert(depth * toward_x == contact.depth * sign(self.vel_x as int));
        assert(depth * toward_y == contact.depth * sign(self.vel_y as int));
        self.x -= depth * toward_x;
        self.y -= depth * toward_y;
        let x = contact.normal_x;
        let y = contact.normal_y;
        if x == 0 && y == 1 {
            assert(self.vel_y * -1 == -self.vel_y) by (nonlinear_arith);
            self.vel_y *= -1;
        } else if x == 1 && y == 0 {
            assert(self.vel_x * -1 == -self.vel_x) by (nonlinear_arith);
            self.vel_x *= -1;
        } else {
            assert(self.vel_x * -1 == -self.vel_x) by (nonlinear_arith);
            assert(self.vel_y * -1 == -self.vel_y) by (nonlinear_arith);
            self.vel_x *= -1;
            self.vel_y *= -1;
        }
    }

    /// Whether [`Ball::resolve_contact`] may be called.
    pub fn can_resolve(&self, contact: Contact) -> (ok: bool)
        ensures
            ok == self@.can_resolve(contact),
    {
        let depth = contact.depth as i64;
        let toward_x = signum(self.vel_x) as i64;
        let toward_y = signum(self.vel_y) as i64;
        assert(-0x8000_0000 <= depth * toward_x <= 0x8000_0000) by (nonlinear_arith)
            requires
                -0x8000_0000 <= depth <= 0x8000_0000,
                -1 <= toward_x <= 1,
        ;
        assert(-0x8000_0000 <= depth * toward_y <= 0x8000_0000) by (nonlinear_arith)
            requires
                -0x8000_0000 <= depth <= 0x8000_0000,
                -1 <= toward_y <= 1,
        ;
        let back_x = depth * toward_x;
        let back_y = depth * toward_y;
        let vertical = contact.normal_x == 0 && contact.normal_y == 1;
        let horizontal = contact.normal_x == 1 && contact.normal_y == 0;
        in_range(back_x) && in_range(self.x as i64 - back_x) && in_range(back_y) && in_range(
            self.y as i64 - back_y,
        ) && (!vertical || self.vel_y != i32::MIN) && (vertical || self.vel_x != i32::MIN) && (
        vertical || horizontal || self.vel_y != i32::MIN)
    }

    /// Resolves the contacts of the ball with the shapes on the canvas, in
    /// the order given, each on what the ones before it left.
    pub fn shape_collision(&mut self, contacts: &Vec<Contact>)
        requires
            old(self)@.can_collide(contacts@),
        ensures
            final(self)@ == old(self)@.collided(contacts@),
    {
        let mut index: usize = 0;
        while index < contacts.len()
            invariant
                index <= contacts.len(),
                old(self)@.can_collide(contacts@),
                self@ == old(self)@.collided(contacts@.take(index as int)),
            decreases contacts.len() - index,
        {
            proof {
                let upto = contacts@.take(index as int + 1);
                assert(upto.drop_last() =~= contacts@.take(index as int));
                assert(upto.last() == contacts@[index as int]);
                lemma_can_collide_prefix(old(self)@, contacts@, index as int + 1);
            }
            self.resolve_contact(contacts[index]);
            index += 1;
        }
        assert(contacts@.take(contacts.len() as int) =~= contacts@);
    }

    /// Whether [`Ball::shape_collision`] may be called.
    pub fn can_collide(&self, contacts: &Vec<Contact>) -> (ok: bool)
        ensures
            ok == self@.can_collide(contacts@),
    {
        let mut ball = *self;
        let mut index: usize = 0;
        while index < contacts.len()
            invariant
                index <= contacts.len(),
                self@.can_collide(contacts@.take(index as int)),
                ball@ == self@.collided(contacts@.take(index as int)),
            decreases contacts.len() - index,
        {
            proof {
                let upto = contacts@.take(index as int + 1);
                assert(upto.drop_last() =~= contacts@.take(index as int));
                assert(upto.last() == contacts@[index as int]);
            }
            if !ball.can_resolve(contacts[index]) {
                proof {
                    if self@.can_collide(contacts@) {
                        lemma_can_collide_prefix(self@, contacts@, index as int + 1);
                    }
                }
                return false;
            }
            ball.resolve_contact(contacts[index]);
            index += 1;
        }
        assert(contacts@.take(contacts.len() as int) =~= contacts@);
        true
    }

    /// The centre of the ball.
    pub fn get_center(&self) -> (center: Point)
        ensures
            center.x == self.x,
            center.y == self.y,
    {
        Point { x: self.x, y: self.y }
    }
}

/// The points of the two players.
#[derive(Clone, Copy, Debug, PartialEq, Eq, Structural)]
pub struct Score {
    pub left: i32,
    pub right: i32,
}

impl Score {
    /// No points on either side.
    pub fn new() -> (score: Score)
        ensures
            score.left == 0,
            score.right == 0,
    {
        Score { left: 0, right: 0 }
    }

    /// One more point for the left player.
    pub fn add_left(&mut self)
        requires
            old(self).left < i32::MAX,
        ensures
            final(self).left == old(self).left + 1,
            final(self).right == old(self).right,
    {
        self.left += 1
    }

    /// One more point for the right player.
    pub fn add_right(&mut self)
        requires
            old(self).right < i32::MAX,
        ensures
            final(self).right == old(self).right + 1,
            final(self).left == old(self).left,
    {
        self.right += 1
    }
}

/// The game as the rules see it.
pub struct GameState {
    /// The size of the canvas.
    pub size: Size,
    pub ball: BallState,
    pub score_left: int,
    pub score_right: int,
    /// Whether the last tick served the ball again.
    pub reset: bool,
    /// Whether there is a wall in place of the player on the right.
    pub single_player: bool,
}

impl GameState {
    /// The ball of this tick once it has moved, met the walls and been
    /// pushed out of the shapes: the ball that is looked at for a point.
    pub open spec fn moved_ball(self, contacts: Seq<Contact>) -> BallState {
        self.ball.translated().walled(self.size, self.single_player).collided(contacts)
    }

    /// Whether this tick gives a point to the right player: the centre of
    /// the ball has left the canvas on the left.
    pub open spec fn right_scores(self, contacts: Seq<Contact>) -> bool {
        self.moved_ball(contacts).x < 0
    }

    /// Whether this tick gives a point to the left player: there are two
    /// players and the right edge of the ball has left the canvas on the
    /// right.
    pub open spec fn left_scores(self, contacts: Seq<Contact>) -> bool {
        !self.single_player && self.moved_ball(contacts).x + self.moved_ball(contacts).radius
            > self.size.width
    }

    /// Whether this tick gives a point to anyone.
    pub open spec fn scores(self, contacts: Seq<Contact>) -> bool {
        self.right_scores(contacts) || self.left_scores(contacts)
    }

    /// The game one tick later. Where a point is given the ball is served
    /// at the given speeds; where none is given they play no part.
    pub open spec fn ticked(self, contacts: Seq<Contact>, speed_x: int, speed_y: int) -> GameState {
        GameState {
            size: self.size,
            ball: if self.scores(contacts) {
                self.moved_ball(contacts).served(self.size, speed_x, speed_y)
            } else {
                self.moved_ball(contacts)
            },
            score_left: if self.left_scores(contacts) {
                self.score_left + 1
            } else {
                self.score_left
            },
            score_right: if self.right_scores(contacts) {
                self.score_right + 1
            } else {
                self.score_right
            },
            reset: self.scores(contacts),
            single_player: self.single_player,
        }
    }

    /// Whether the ball can move and meet the walls within the range of
    /// `i32`.
    pub open spec fn can_move(self) -> bool {
        self.ball.can_translate() && self.ball.translated().can_wall(
            self.size,
            self.single_player,
        )
    }

    /// Whether the whole tick stays in the range of `i32`.
    pub open spec fn can_tick(self, contacts: Seq<Contact>) -> bool {
        &&& self.can_move()
        &&& self.ball.translated().walled(self.size, self.single_player).can_collide(contacts)
        &&& (self.right_scores(contacts) ==> fits(self.score_right + 1))
        &&& (!self.single_player ==> fits(
            self.moved_ball(contacts).x + self.moved_ball(contacts).radius,
        ))
        &&& (self.left_scores(contacts) ==> fits(self.score_left + 1))
    }
}

/// One thing to draw on the canvas.
#[derive(Clone, Copy, Debug, PartialEq, Eq, Structural)]
pub enum DrawCommand {
    /// Paint the whole canvas in one colour.
    Fill { color: Rgb },
    /// Paint a filled circle.
    Disc { center: Point, radius: i32, color: Rgb },
    /// Write a number, its lower left corner at `origin`.
    Number { value: i32, origin: Point, color: Rgb },
}

/// A game of pong on a canvas.
#[derive(Clone, Copy, Debug, PartialEq, Eq, Structural)]
pub struct Game {
    pub size: Size,
    pub ball: Ball,
    pub score: Score,
    /// Whether the last tick served the ball again.
    pub reset: bool,
    pub single_player: bool,
    pub graphics: Graphics,
}

impl View for Game {
    type V = GameState;

    open spec fn view(&self) -> GameState {
        GameState {
            size: self.size,
            ball: self.ball@,
            score_left: self.score.left as int,
            score_right: self.score.right as int,
            reset: self.reset,
            single_player: self.single_player,
        }
    }
}

impl Game {
    /// Whether the game is in order: it is drawn as its canvas size asks,
    /// and no score is negative.
    pub open spec fn wf(&self) -> bool {
        &&& self.graphics == Graphics::layout(self.size)
        &&& self.score.left >= 0
        &&& self.score.right >= 0
    }

    /// What is drawn for the game, in this order: the background, the ball,
    /// the score of the left player where there are two players, the score
    /// of the right player.
    pub open spec fn scene(&self) -> Seq<DrawCommand> {
        let ground = seq![
            DrawCommand::Fill { color: self.graphics.bg_color },
            DrawCommand::Disc {
                center: Point { x: self.ball.x, y: self.ball.y },
                radius: self.ball.radius,
                color: self.graphics.obj_color,
            },
        ];
        let left = DrawCommand::Number {
            value: self.score.left,
            origin: self.graphics.score_pos_left,
            color: self.graphics.score_color,
        };
        let right = DrawCommand::Number {
            value: self.score.right,
            origin: self.graphics.score_pos_right,
            color: self.graphics.score_color,
        };
        if self.single_player {
            ground.push(right)
        } else {
            ground.push(left).push(right)
        }
    }

    /// A new game on a canvas of the given size, with no points yet and the
    /// ball in the centre, flying right and down at a speed drawn by chance
    /// from 20 to 29 pixels per tick on each axis.
    pub fn new(size: Size, single_player: bool) -> (game: Game)
        requires
            Graphics::can_init(size),
        ensures
            game.wf(),
            20 <= game.ball.vel_x < 30,
            20 <= game.ball.vel_y < 30,
            game == Game::spec_with_ball(
                size,
                single_player,
                Ball {
                    x: quotient(size.width as int, 2) as i32,
                    y: quotient(size.height as int, 2) as i32,
                    vel_x: game.ball.vel_x,
                    vel_y: game.ball.vel_y,
                    radius: 10,
                    starting_side: Player::Right,
                },
            ),
    {
        Game {
            ball: Ball::new(size),
            score: Score::new(),
            reset: false,
            size: size,
            single_player: single_player,
            graphics: Graphics::init(size),
        }
    }

    /// A new game with the given ball and no points yet.
    pub open spec fn spec_with_ball(size: Size, single_player: bool, ball: Ball) -> Game {
        Game {
            size: size,
            ball: ball,
            score: Score { left: 0, right: 0 },
            reset: false,
            single_player: single_player,
            graphics: Graphics::layout(size),
        }
    }

    /// A new game with the given ball and no points yet.
    #[verifier::when_used_as_spec(spec_with_ball)]
    pub fn with_ball(size: Size, single_player: bool, ball: Ball) -> (game: Game)
        requires
            Graphics::can_init(size),
        ensures
            game.wf(),
            game == Game::spec_with_ball(size, single_player, ball),
    {
        Game {
            ball: ball,
            score: Score::new(),
            reset: false,
            size: size,
            single_player: single_player,
            graphics: Graphics::init(size),
        }
    }

    /// Plays one tick: the ball moves, meets the walls and the shapes it
    /// overlaps; where it has left the canvas the other player gets a point
    /// and the ball is served again, at a speed drawn by chance from 15 to
    /// 24 pixels per tick on each axis.
    ///
    /// `contacts` are the overlaps of the ball with the shapes on the
    /// canvas, measured on the ball as [`Game::next_ball`] gives it.
    pub fn update(&mut self, contacts: &Vec<Contact>)
        requires
            old(self).wf(),
            old(self)@.can_tick(contacts@),
        ensures
            final(self).wf(),
            final(self).graphics == old(self).graphics,
            final(self)@ == old(self)@.ticked(
                contacts@,
                magnitude(final(self).ball.vel_x as int),
                final(self).ball.vel_y as int,
            ),
            old(self)@.scores(contacts@) ==> 15 <= magnitude(final(self).ball.vel_x as int) < 25
                && 15 <= final(self).ball.vel_y < 25,
    {
        if self.reset {
            self.reset = false;
        }
        self.ball.translate();
        self.ball.wall_collision(self.size, self.single_player);
        self.ball.shape_collision(contacts);

        if self.ball.x < 0 {
            self.score.add_right();
            self.reset = true;
        }
        if !self.single_player {
            if self.ball.x + self.ball.radius > self.size.width {
                self.score.add_left();
                self.reset = true;
            }
        }
        if self.reset {
            self.ball.reset(self.size);
        }
    }

    /// Whether [`Game::update`] may be called with these contacts.
    pub fn can_update(&self, contacts: &Vec<Contact>) -> (ok: bool)
        ensures
            ok == self@.can_tick(contacts@),
    {
        let mut ball = self.ball;
        if !ball.can_translate() {
            return false;
        }
        ball.translate();
        if !ball.can_wall(self.size, self.single_player) {
            return false;
        }
        ball.wall_collision(self.size, self.single_player);
        if !ball.can_collide(contacts) {
            return false;
        }
        ball.shape_collision(contacts);
        if ball.x < 0 && self.score.right == i32::MAX {
            return false;
        }
        if !self.single_player {
            let edge = ball.x as i64 + ball.radius as i64;
            if !in_range(edge) {
                return false;
            }
            if edge > self.size.width as i64 && self.score.left == i32::MAX {
                return false;
            }
        }
        true
    }

    /// The ball as the next tick will test it against the shapes: moved by
    /// its velocity and thrown back by the walls. `None` where that leaves
    /// the range of `i32`.
    pub fn next_ball(&self) -> (next: Option<Ball>)
        ensures
            next is Some <==> self@.can_move(),
            next matches Some(ball) ==> ball@ == self@.ball.translated().walled(
                self.size,
                self.single_player,
            ),
    {
        let mut ball = self.ball;
        if !ball.can_translate() {
            return None;
        }
        ball.translate();
        if !ball.can_wall(self.size, self.single_player) {
            return None;
        }
        ball.wall_collision(self.size, self.single_player);
        Some(ball)
    }

    /// What to draw for the game as it stands.
    pub fn draw(&self) -> (commands: Vec<DrawCommand>)
        ensures
            commands@ == self.scene(),
    {
        let mut commands = Vec::new();
        // the solid background
        commands.push(DrawCommand::Fill { color: self.graphics.bg_color });
        // the ball
        commands.push(
            DrawCommand::Disc {
                center: self.ball.get_center(),
                radius: self.ball.radius,
                color: self.graphics.obj_color,
            },
        );
        // the score
        if !self.single_player {
            commands.push(
                DrawCommand::Number {
                    value: self.score.left,
                    origin: self.graphics.score_pos_left,
                    color: self.graphics.score_color,
                },
            );
        }
        commands.push(
            DrawCommand::Number {
                value: self.score.right,
                origin: self.graphics.score_pos_right,
                color: self.graphics.score_color,
            },
        );
        assert(commands@ =~= self.scene());
        commands
    }
}

/// A ball that reaches the top of the canvas, and not the bottom as well,
/// leaves the walls flying the other way vertically and exactly one pixel
/// lower.
pub proof fn lemma_top_wall_turns_ball(ball: BallState, screen: Size, single_player: bool)
    requires
        ball.at_top(),
        !ball.off_top().at_bottom(screen),
    ensures
        ball.walled(screen, single_player).vel_y == -ball.vel_y,
        ball.walled(screen, single_player).y == ball.y + 1,
{
}

/// A ball that reaches the bottom of the canvas, and not the top as well,
/// leaves the walls flying the other way vertically and exactly one pixel
/// higher.
pub proof fn lemma_bottom_wall_turns_ball(ball: BallState, screen: Size, single_player: bool)
    requires
        !ball.at_top(),
        ball.at_bottom(screen),
    ensures
        ball.walled(screen, single_player).vel_y == -ball.vel_y,
        ball.walled(screen, single_player).y == ball.y - 1,
{
}

/// On a canvas so low that the ball reaches its top and, thrown back, its
/// bottom too, the two walls undo each other: the ball keeps its height and
/// its vertical speed.
pub proof fn lemma_both_walls_undo(ball: BallState, screen: Size, single_player: bool)
    requires
        ball.at_top(),
        ball.off_top().at_bottom(screen),
    ensures
        ball.walled(screen, single_player).vel_y == ball.vel_y,
        ball.walled(screen, single_player).y == ball.y,
{
}

/// For a single player a ball that reaches the right side of the canvas
/// leaves the walls flying the other way horizontally and exactly one pixel
/// further left.
pub proof fn lemma_right_wall_turns_ball(ball: BallState, screen: Size)
    requires
        ball.at_right(screen),
    ensures
        ball.walled(screen, true).vel_x == -ball.vel_x,
        ball.walled(screen, true).x == ball.x - 1,
        ball.walled(screen, false).vel_x == ball.vel_x,
        ball.walled(screen, false).x == ball.x,
{
}

/// A tick in which the centre of the ball leaves the canvas on the left
/// gives the right player exactly one point and serves the ball exactly
/// once: the ball then stands at half the width of the canvas, the turn to
/// start has passed on once, and, on a canvas that has a width, the ball is
/// not where it left.
pub proof fn lemma_point_for_right(
    game: GameState,
    contacts: Seq<Contact>,
    speed_x: int,
    speed_y: int,
)
    requires
        game.right_scores(contacts),
    ensures
        game.ticked(contacts, speed_x, speed_y).score_right == game.score_right + 1,
        game.ticked(contacts, speed_x, speed_y).reset,
        game.ticked(contacts, speed_x, speed_y).ball == game.moved_ball(contacts).served(
            game.size,
            speed_x,
            speed_y,
        ),
        game.ticked(contacts, speed_x, speed_y).ball.x == quotient(game.size.width as int, 2),
        game.ticked(contacts, speed_x, speed_y).ball.starting_side == game.moved_ball(
            contacts,
        ).starting_side.opponent(),
        game.size.width >= 0 ==> game.ticked(contacts, speed_x, speed_y).ball.x
            == game.size.width / 2,
        game.size.width >= 0 ==> game.ticked(contacts, speed_x, speed_y).ball.x
            != game.moved_ball(contacts).x,
        game.single_player ==> game.ticked(contacts, speed_x, speed_y).score_left
            == game.score_left,
{
}

/// A tick of two players in which the right edge of the ball leaves the
/// canvas on the right gives the left player exactly one point and serves
/// the ball exactly once.
pub proof fn lemma_point_for_left(
    game: GameState,
    contacts: Seq<Contact>,
    speed_x: int,
    speed_y: int,
)
    requires
        game.left_scores(contacts),
    ensures
        game.ticked(contacts, speed_x, speed_y).score_left == game.score_left + 1,
        game.ticked(contacts, speed_x, speed_y).reset,
        game.ticked(contacts, speed_x, speed_y).ball == game.moved_ball(contacts).served(
            game.size,
            speed_x,
            speed_y,
        ),
{
}

/// A tick in which the ball stays on the canvas changes no score and serves
/// nothing: the ball is where moving, the walls and the shapes left it.
pub proof fn lemma_no_point(game: GameState, contacts: Seq<Contact>, speed_x: int, speed_y: int)
    requires
        !game.scores(contacts),
    ensures
        game.ticked(contacts, speed_x, speed_y).score_left == game.score_left,
        game.ticked(contacts, speed_x, speed_y).score_right == game.score_right,
        !game.ticked(contacts, speed_x, speed_y).reset,
        game.ticked(contacts, speed_x, speed_y).ball == game.moved_ball(contacts),
{
}

/// Two serves in a row go to opposite sides, whatever the canvas and the
/// speeds, as long as the ball is served at a speed above zero.
pub proof fn lemma_serves_alternate(
    ball: BallState,
    screen: Size,
    speed_x: int,
    speed_y: int,
    next_screen: Size,
    next_speed_x: int,
    next_speed_y: int,
)
    requires
        speed_x > 0,
        next_speed_x > 0,
    ensures
        sign(ball.served(screen, speed_x, speed_y).vel_x) != 0,
        sign(
            ball.served(screen, speed_x, speed_y).served(
                next_screen,
                next_speed_x,
                next_speed_y,
            ).vel_x,
        ) == -sign(ball.served(screen, speed_x, speed_y).vel_x),
        ball.served(screen, speed_x, speed_y).served(
            next_screen,
            next_speed_x,
            next_speed_y,
        ).starting_side == ball.starting_side,
{
}

/// Walls and shapes turn the ball and move it, and do nothing else to it:
/// it keeps its radius, its speed on each axis, and the turn to start.
pub proof fn lemma_moving_keeps_ball(game: GameState, contacts: Seq<Contact>)
    ensures
        game.moved_ball(contacts).radius == game.ball.radius,
        magnitude(game.moved_ball(contacts).vel_x) == magnitude(game.ball.vel_x),
        magnitude(game.moved_ball(contacts).vel_y) == magnitude(game.ball.vel_y),
        game.moved_ball(contacts).starting_side == game.ball.starting_side,
{
    lemma_contacts_keep_ball(
        game.ball.translated().walled(game.size, game.single_player),
        contacts,
    );
}

/// Contacts turn the ball and move it, and do nothing else to it.
pub proof fn lemma_contacts_keep_ball(ball: BallState, contacts: Seq<Contact>)
    ensures
        ball.collided(contacts).radius == ball.radius,
        magnitude(ball.collided(contacts).vel_x) == magnitude(ball.vel_x),
        magnitude(ball.collided(contacts).vel_y) == magnitude(ball.vel_y),
        ball.collided(contacts).starting_side == ball.starting_side,
    decreases contacts.len(),
{
    if contacts.len() > 0 {
        lemma_contacts_keep_ball(ball, contacts.drop_last());
    }
}

/// Over a tick the canvas and the number of players stay, the radius of the
/// ball stays, and no score falls or rises by more than one.
pub proof fn lemma_tick_keeps_game(
    game: GameState,
    contacts: Seq<Contact>,
    speed_x: int,
    speed_y: int,
)
    ensures
        game.ticked(contacts, speed_x, speed_y).size == game.size,
        game.ticked(contacts, speed_x, speed_y).single_player == game.single_player,
        game.ticked(contacts, speed_x, speed_y).ball.radius == game.ball.radius,
        game.score_left <= game.ticked(contacts, speed_x, speed_y).score_left <= game.score_left
            + 1,
        game.score_right <= game.ticked(contacts, speed_x, speed_y).score_right
            <= game.score_right + 1,
        game.single_player ==> game.ticked(contacts, speed_x, speed_y).score_left
            == game.score_left,
{
    lemma_moving_keeps_ball(game, contacts);
}

/// With nothing on the canvas to touch, the contacts leave the ball as it
/// is.
pub proof fn lemma_no_contacts(ball: BallState)
    ensures
        ball.can_collide(Seq::<Contact>::empty()),
        ball.collided(Seq::<Contact>::empty()) == ball,
{
}

/// Whether `v` can be held in an `i32`.
fn in_range(v: i64) -> (ok: bool)
    ensures
        ok == fits(v as int),
{
    i32::MIN as i64 <= v && v <= i32::MAX as i64
}

/// Contacts that can all be resolved in turn can be resolved up to any
/// point.
proof fn lemma_can_collide_prefix(ball: BallState, contacts: Seq<Contact>, n: int)
    requires
        0 <= n <= contacts.len(),
        ball.can_collide(contacts),
    ensures
        ball.can_collide(contacts.take(n)),
    decreases contacts.len(),
{
    if n < contacts.len() {
        lemma_can_collide_prefix(ball, contacts.drop_last(), n);
        assert(contacts.drop_last().take(n) =~= contacts.take(n));
    } else {
        assert(contacts.take(n) =~= contacts);
    }
}

} // verus!
