use gnop_pong::game::{Ball, Contact, DrawCommand, Game, Player, Score};
use gnop_pong::geometry::{Point, Size};
use gnop_pong::graphics::{Graphics, Rgb};

fn ball(x: i32, y: i32, vel_x: i32, vel_y: i32) -> Ball {
    Ball { x, y, vel_x, vel_y, radius: 10, starting_side: Player::Right }
}

fn canvas() -> Size {
    Size { width: 400, height: 300 }
}

#[test]
fn new_game_has_no_points_and_a_ball_in_the_centre() {
    let game = Game::new(canvas(), false);
    assert_eq!(game.size, canvas());
    assert_eq!(game.score, Score { left: 0, right: 0 });
    assert!(!game.reset);
    assert!(!game.single_player);
    assert_eq!(game.graphics, Graphics::init(canvas()));
    assert_eq!((game.ball.x, game.ball.y), (200, 150));
    assert_eq!(game.ball.radius, 10);
    assert!(20 <= game.ball.vel_x && game.ball.vel_x < 30);
    assert!(20 <= game.ball.vel_y && game.ball.vel_y < 30);
    assert!(Game::new(canvas(), true).single_player);
}

#[test]
fn tick_in_the_open_moves_the_ball_by_its_velocity() {
    let mut game = Game::with_ball(canvas(), false, ball(200, 150, 20, 20));
    assert!(game.can_update(&vec![]));
    game.update(&vec![]);
    assert_eq!(game.ball, ball(220, 170, 20, 20));
    assert_eq!(game.score, Score { left: 0, right: 0 });
    assert!(!game.reset);
}

#[test]
fn tick_of_a_single_player_bounces_off_the_right_wall() {
    let mut game = Game::with_ball(canvas(), true, ball(395, 150, 20, 0));
    game.update(&vec![]);
    // The ball moves to 415 and is thrown back one pixel inward.
    assert_eq!(game.ball, ball(414, 150, -20, 0));
    assert_eq!(game.score, Score { left: 0, right: 0 });
    assert!(!game.reset);
}

#[test]
fn tick_of_two_players_scores_on_the_left_edge() {
    let mut game = Game::with_ball(canvas(), false, ball(5, 150, -20, 20));
    game.update(&vec![]);
    assert_eq!(game.score, Score { left: 0, right: 1 });
    assert!(game.reset);
    assert_eq!((game.ball.x, game.ball.y), (200, 150));
    assert_ne!(game.ball.x, -15);
    assert!(game.ball.vel_x < 0);
    assert!(-25 < game.ball.vel_x && game.ball.vel_x <= -15);
    assert!(15 <= game.ball.vel_y && game.ball.vel_y < 25);
    assert_eq!(game.ball.starting_side, Player::Left);
    assert_eq!(game.ball.radius, 10);
}

#[test]
fn tick_of_two_players_scores_on_the_right_edge() {
    let mut game = Game::with_ball(canvas(), false, ball(375, 150, 20, 20));
    game.update(&vec![]);
    // 395 + 10 is beyond 400
    assert_eq!(game.score, Score { left: 1, right: 0 });
    assert!(game.reset);
    assert_eq!((game.ball.x, game.ball.y), (200, 150));
    assert!(game.ball.vel_x < 0);
}

#[test]
fn ball_that_touches_the_right_edge_has_not_left() {
    let mut game = Game::with_ball(canvas(), false, ball(370, 150, 20, 20));
    game.update(&vec![]);
    // 390 + 10 is 400, not beyond
    assert_eq!(game.score, Score { left: 0, right: 0 });
    assert_eq!(game.ball, ball(390, 170, 20, 20));
}

#[test]
fn ball_at_zero_has_not_left() {
    let mut game = Game::with_ball(canvas(), false, ball(20, 150, -20, 20));
    game.update(&vec![]);
    assert_eq!(game.score, Score { left: 0, right: 0 });
    assert_eq!(game.ball, ball(0, 170, -20, 20));
}

#[test]
fn single_player_can_lose_on_the_left() {
    let mut game = Game::with_ball(canvas(), true, ball(5, 150, -20, 20));
    game.update(&vec![]);
    assert_eq!(game.score, Score { left: 0, right: 1 });
    assert!(game.reset);
    assert_eq!((game.ball.x, game.ball.y), (200, 150));
}

#[test]
fn on_a_canvas_narrower_than_the_ball_both_players_score() {
    let narrow = Size { width: 5, height: 300 };
    let mut game = Game::with_ball(narrow, false, ball(18, 150, -20, 20));
    game.update(&vec![]);
    // The centre is at -2, left of the canvas; the right edge at 8, right of it.
    assert_eq!(game.score, Score { left: 1, right: 1 });
    assert!(game.reset);
    // served once only
    assert_eq!(game.ball.starting_side, Player::Left);
    assert_eq!((game.ball.x, game.ball.y), (2, 150));
}

#[test]
fn serves_alternate_over_the_points_of_a_game() {
    let mut game = Game::with_ball(canvas(), false, ball(5, 150, -20, 20));
    game.update(&vec![]);
    assert!(game.ball.vel_x < 0);
    // Put the ball at the left edge again.
    game.ball.x = 5;
    game.ball.vel_x = -20;
    game.update(&vec![]);
    assert_eq!(game.score, Score { left: 0, right: 2 });
    assert!(game.ball.vel_x > 0);
    game.ball.x = 5;
    game.ball.vel_x = -20;
    game.update(&vec![]);
    assert_eq!(game.score, Score { left: 0, right: 3 });
    assert!(game.ball.vel_x < 0);
}

#[test]
fn the_reset_mark_lasts_one_tick() {
    let mut game = Game::with_ball(canvas(), false, ball(5, 150, -20, 20));
    game.update(&vec![]);
    assert!(game.reset);
    game.update(&vec![]);
    assert!(!game.reset);
    assert_eq!(game.score, Score { left: 0, right: 1 });
}

#[test]
fn tick_bounces_off_the_top_wall() {
    let mut game = Game::with_ball(canvas(), false, ball(200, 25, 20, -20));
    game.update(&vec![]);
    assert_eq!(game.ball, ball(220, 6, 20, 20));
}

#[test]
fn tick_resolves_the_contacts_after_the_walls() {
    let mut game = Game::with_ball(canvas(), false, ball(200, 150, 20, 20));
    let contacts = vec![Contact { depth: 6, normal_x: 1, normal_y: 0 }];
    assert!(game.can_update(&contacts));
    game.update(&contacts);
    assert_eq!(game.ball, ball(214, 164, -20, 20));
}

#[test]
fn a_contact_can_push_the_ball_off_the_canvas() {
    let mut game = Game::with_ball(canvas(), false, ball(30, 150, 20, 20));
    game.update(&vec![Contact { depth: 60, normal_x: 1, normal_y: 0 }]);
    // moved to 50, pushed back to -10: a point for the right player
    assert_eq!(game.score, Score { left: 0, right: 1 });
    assert_eq!((game.ball.x, game.ball.y), (200, 150));
}

#[test]
fn next_ball_is_the_ball_that_meets_the_shapes() {
    let game = Game::with_ball(canvas(), true, ball(395, 285, 20, 20));
    assert_eq!(game.next_ball(), Some(ball(414, 304, -20, -20)));
    // The game itself has not moved.
    assert_eq!(game.ball, ball(395, 285, 20, 20));
}

#[test]
fn next_ball_is_none_beyond_i32() {
    let game = Game::with_ball(canvas(), false, ball(i32::MAX - 5, 150, 20, 20));
    assert_eq!(game.next_ball(), None);
    assert!(!game.can_update(&vec![]));
}

#[test]
fn can_update_sees_a_full_score() {
    let mut game = Game::with_ball(canvas(), false, ball(5, 150, -20, 20));
    game.score.right = i32::MAX;
    assert!(!game.can_update(&vec![]));
    game.score.right = i32::MAX - 1;
    assert!(game.can_update(&vec![]));
    game.update(&vec![]);
    assert_eq!(game.score.right, i32::MAX);

    let mut game = Game::with_ball(canvas(), false, ball(375, 150, 20, 20));
    game.score.left = i32::MAX;
    assert!(!game.can_update(&vec![]));
    game.single_player = true;
    assert!(game.can_update(&vec![]));
}

#[test]
fn can_update_sees_a_contact_too_deep() {
    let game = Game::with_ball(canvas(), false, ball(200, 150, 20, 20));
    assert!(game.can_update(&vec![Contact { depth: i32::MAX, normal_x: 0, normal_y: 1 }]));
    let game = Game::with_ball(canvas(), false, ball(-200, 150, 20, 20));
    assert!(!game.can_update(&vec![Contact { depth: i32::MAX, normal_x: 0, normal_y: 1 }]));
}

#[test]
fn score_counts_by_one() {
    let mut score = Score::new();
    assert_eq!(score, Score { left: 0, right: 0 });
    score.add_left();
    score.add_left();
    score.add_right();
    assert_eq!(score, Score { left: 2, right: 1 });
}

#[test]
fn draw_for_two_players() {
    let mut game = Game::with_ball(canvas(), false, ball(220, 170, 20, 20));
    game.score = Score { left: 3, right: 12 };
    let yellow = Rgb { r: 255, g: 255, b: 0 };
    assert_eq!(
        game.draw(),
        vec![
            DrawCommand::Fill { color: Rgb { r: 0, g: 0, b: 0 } },
            DrawCommand::Disc {
                center: Point { x: 220, y: 170 },
                radius: 10,
                color: Rgb { r: 255, g: 153, b: 204 },
            },
            DrawCommand::Number { value: 3, origin: Point { x: 150, y: 37 }, color: yellow },
            DrawCommand::Number { value: 12, origin: Point { x: 250, y: 37 }, color: yellow },
        ]
    );
}

#[test]
fn draw_for_a_single_player() {
    let mut game = Game::with_ball(canvas(), true, ball(-4, 9, 20, 20));
    game.score = Score { left: 0, right: 7 };
    let yellow = Rgb { r: 255, g: 255, b: 0 };
    assert_eq!(
        game.draw(),
        vec![
            DrawCommand::Fill { color: Rgb { r: 0, g: 0, b: 0 } },
            DrawCommand::Disc {
                center: Point { x: -4, y: 9 },
                radius: 10,
                color: Rgb { r: 255, g: 153, b: 204 },
            },
            DrawCommand::Number { value: 7, origin: Point { x: 250, y: 37 }, color: yellow },
        ]
    );
}

#[test]
fn a_long_game_keeps_its_shape() {
    for single_player in [false, true] {
        let mut game = Game::new(canvas(), single_player);
        let mut points = 0;
        for _ in 0..20000 {
            let before = game;
            assert!(game.can_update(&vec![]));
            game.update(&vec![]);
            assert_eq!(game.size, canvas());
            assert_eq!(game.single_player, single_player);
            assert_eq!(game.graphics, before.graphics);
            assert_eq!(game.ball.radius, 10);
            assert!(15 <= game.ball.vel_x.abs() && game.ball.vel_x.abs() < 30);
            assert!(15 <= game.ball.vel_y.abs() && game.ball.vel_y.abs() < 30);
            assert!(game.score.left >= before.score.left);
            assert!(game.score.right >= before.score.right);
            let scored = game.score.left - before.score.left + game.score.right - before.score.right;
            assert!(scored <= 1);
            assert_eq!(game.reset, scored == 1);
            if game.reset {
                assert_eq!((game.ball.x, game.ball.y), (200, 150));
                assert_ne!(game.ball.starting_side, before.ball.starting_side);
            } else {
                assert_eq!(game.ball.vel_x.abs(), before.ball.vel_x.abs());
                assert_eq!(game.ball.vel_y.abs(), before.ball.vel_y.abs());
                assert_eq!(game.ball.starting_side, before.ball.starting_side);
            }
            if single_player {
                assert_eq!(game.score.left, 0);
            }
            points += scored;
        }
        assert!(points > 0);
    }
}
