use rust_basics::{move_to_start, Movable, Player, PlayerAction, Point, Sex};

#[test]
fn new_player_has_the_fixed_defaults() {
    let p = Player::new();
    assert_eq!(p.get_energy(), 100);
    assert_eq!(p.balance.coins, 0);
    assert_eq!(p.balance.gems, 0);
    assert_eq!(p.lvl, 0);
    assert_eq!(p.pos, Point { x: 0, y: 0 });
    assert!(matches!(p.sex, Sex::Male));
}

#[test]
fn move_then_stand_still_stays_put() {
    let mut p = Player::new();
    let go = PlayerAction::Move(Some(Point { x: 5, y: 5 }));
    let stay = PlayerAction::Move(None);
    assert!(p.do_action(&go).is_none());
    assert!(p.do_action(&stay).is_none());
    assert_eq!(p.pos, Point { x: 5, y: 5 });
    for _ in 0..3 {
        p.do_action(&stay);
    }
    assert_eq!(p.pos, Point { x: 5, y: 5 });
}

#[test]
fn standing_still_keeps_the_position() {
    let mut p = Player::new();
    p.pos = Point { x: -3, y: 8 };
    p.do_action(&PlayerAction::Move(None));
    assert_eq!(p.pos, Point { x: -3, y: 8 });
}

#[test]
fn talking_changes_nothing() {
    let mut p = Player::new();
    p.lvl = 4;
    p.balance.coins = 7;
    p.balance.gems = 2;
    p.pos = Point { x: 1, y: -1 };
    let said = p.do_action(&PlayerAction::Talk(String::from("hello")));
    assert_eq!(said, Some(String::from("Player talk: hello")));
    assert_eq!(p.lvl, 4);
    assert_eq!(p.balance.coins, 7);
    assert_eq!(p.balance.gems, 2);
    assert_eq!(p.get_energy(), 100);
    assert_eq!(p.pos, Point { x: 1, y: -1 });
}

#[test]
fn do_talk_gives_the_line() {
    let mut p = Player::new();
    assert_eq!(p.do_talk(String::from("hi there")), "Player talk: hi there");
    assert_eq!(p.pos, Point { x: 0, y: 0 });
}

#[test]
fn moves_add_up_one_by_one() {
    let mut p = Player::new();
    let steps = [(5, 5), (10, -5), (-2, 3)];
    for (x, y) in steps {
        p.do_action(&PlayerAction::Move(Some(Point { x, y })));
    }
    assert_eq!(p.pos, Point { x: 13, y: 3 });
}

#[test]
fn do_actions_moves_by_the_sum_and_collects_lines() {
    let mut p = Player::new();
    let actions = vec![
        PlayerAction::Talk(String::from("hello")),
        PlayerAction::Move(Some(Point { x: 5, y: 5 })),
        PlayerAction::Move(None),
        PlayerAction::Move(Some(Point { x: 10, y: -5 })),
        PlayerAction::Talk(String::from("bye")),
    ];
    let said = p.do_actions(&actions);
    assert_eq!(p.pos, Point { x: 15, y: 0 });
    assert_eq!(said, vec![String::from("Player talk: hello"), String::from("Player talk: bye")]);
    assert_eq!(p.lvl, 0);
    assert_eq!(p.get_energy(), 100);
}

#[test]
fn do_actions_on_nothing_does_nothing() {
    let mut p = Player::new();
    p.pos = Point { x: 2, y: 2 };
    let said = p.do_actions(&Vec::new());
    assert!(said.is_empty());
    assert_eq!(p.pos, Point { x: 2, y: 2 });
}

#[test]
fn move_by_reaches_the_largest_coordinate() {
    let mut p = Player::new();
    p.pos = Point { x: i64::MAX - 1, y: i64::MIN + 1 };
    p.move_by(1, -1);
    assert_eq!(p.pos, Point { x: i64::MAX, y: i64::MIN });
}

#[test]
fn move_to_is_absolute() {
    let mut p = Player::new();
    p.move_by(3, 4);
    p.move_to(-7, 2);
    assert_eq!(p.pos, Point { x: -7, y: 2 });
    p.lvl = 9;
    move_to_start(&mut p);
    assert_eq!(p.pos, Point { x: 0, y: 0 });
    assert_eq!(p.lvl, 9);
}

#[test]
fn zero_is_the_origin() {
    assert_eq!(Point::zero(), Point { x: 0, y: 0 });
}

#[test]
fn two_runs_move_as_far_as_one() {
    let first = || vec![PlayerAction::Move(Some(Point { x: 5, y: 5 })), PlayerAction::Move(None)];
    let second = || vec![PlayerAction::Move(Some(Point { x: -8, y: 1 })), PlayerAction::Talk(String::from("ok"))];

    let mut apart = Player::new();
    apart.do_actions(&first());
    apart.do_actions(&second());

    let mut together = Player::new();
    let mut all = first();
    all.extend(second());
    together.do_actions(&all);

    assert_eq!(apart.pos, together.pos);
    assert_eq!(together.pos, Point { x: -3, y: 6 });
}
