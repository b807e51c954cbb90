use rusman::game::GameState;
use rusman::input::classify_key;
use rusman::window::centred_rect;
use rusman::Coin;
use rusman::Command;
use rusman::Direction;
use rusman::Player;
use rusman::Point;
use rusman::Spectre;

#[test]
fn coin_on_player_is_consumed_and_scored() {
    let player = Player::new_at_coords(3, 3);
    let coins = vec![
        Coin::new_at_coords(3, 3, false),
        Coin::new_at_coords(3, 4, false),
    ];
    let mut g = GameState::new_with_layout(player, Vec::new(), coins, 32, 20).unwrap();
    assert_eq!(g.score(), 0);
    g.tick();
    assert_eq!(g.score(), 1);
    assert_eq!(g.get_coins().len(), 1);
    assert_eq!((g.get_coins()[0].x(), g.get_coins()[0].y()), (3, 4));
    // the big coin scores its larger value
    let player = Player::new_at_coords(3, 3);
    let coins = vec![Coin::new_at_coords(3, 3, true)];
    let mut g = GameState::new_with_layout(player, Vec::new(), coins, 32, 20).unwrap();
    g.tick();
    assert_eq!(g.score(), 5);
    assert_eq!(g.get_coins().len(), 0);
}

#[test]
fn move_right_moves_player_and_every_spectre_steps() {
    let mut g = GameState::new();
    assert_eq!((g.get_player().x(), g.get_player().y()), (10, 10));
    let before: Vec<(i32, i32)> = g.get_spectres().iter().map(|s| (s.x(), s.y())).collect();
    g.apply_command(Command::Move(Direction::Right));
    g.tick();
    assert_eq!((g.get_player().x(), g.get_player().y()), (11, 10));
    let after: Vec<(i32, i32)> = g.get_spectres().iter().map(|s| (s.x(), s.y())).collect();
    assert_eq!(before.len(), 4);
    for i in 0..4 {
        let dist =
            (before[i].0 - after[i].0).abs() + (before[i].1 - after[i].1).abs();
        assert_eq!(dist, 1);
    }
    // the spectres hunt the player's pre-move position (10, 10)
    assert_eq!(after, vec![(13, 8), (15, 8), (13, 10), (15, 10)]);
}

#[test]
fn default_layout_shape() {
    let g = GameState::new();
    assert_eq!(g.width(), 32);
    assert_eq!(g.height(), 20);
    assert!(!g.is_paused());
    assert!(!g.has_lost());
    assert_eq!(g.get_spectres().len(), 4);
    assert_eq!(g.get_coins().len(), 135);
    let big: Vec<(i32, i32)> = g
        .get_coins()
        .iter()
        .filter(|c| c.is_big())
        .map(|c| (c.x(), c.y()))
        .collect();
    assert_eq!(big, vec![(2, 2), (30, 2), (2, 18), (30, 18)]);
    assert_eq!(g.get_menu().title(), "Rusman");
    assert_eq!(g.get_menu().item_count(), 3);
    assert_eq!(g.get_menu().cursor_index(), 0);
}

#[test]
fn paused_game_does_not_advance() {
    let mut g = GameState::new();
    g.apply_command(Command::Move(Direction::Left));
    g.apply_command(Command::Pause);
    assert!(g.is_paused());
    let before: Vec<(i32, i32)> = g.get_spectres().iter().map(|s| (s.x(), s.y())).collect();
    g.tick();
    assert_eq!((g.get_player().x(), g.get_player().y()), (10, 10));
    let after: Vec<(i32, i32)> = g.get_spectres().iter().map(|s| (s.x(), s.y())).collect();
    assert_eq!(before, after);
    g.apply_command(Command::Pause);
    assert!(!g.is_paused());
    g.tick();
    assert_eq!((g.get_player().x(), g.get_player().y()), (9, 10));
}

#[test]
fn spectre_reaching_player_loses_the_game() {
    let player = Player::new_at_coords(3, 3);
    let spectres = vec![Spectre::new_at_coords(3, 4)];
    let mut g = GameState::new_with_layout(player, spectres, Vec::new(), 32, 20).unwrap();
    g.tick();
    assert_eq!((g.get_spectres()[0].x(), g.get_spectres()[0].y()), (3, 3));
    assert!(g.has_lost());
}

#[test]
fn illegal_moves_are_absorbed() {
    // the player stands on the top edge and is told to leave the field
    let player = {
        let mut p = Player::new_at_coords(0, 0);
        p.set_direction(Direction::Up);
        p
    };
    let mut g = GameState::new_with_layout(player, Vec::new(), Vec::new(), 5, 5).unwrap();
    g.tick();
    assert_eq!((g.get_player().x(), g.get_player().y()), (0, 0));
    // a spectre standing on its prey prefers stepping up, but on the top
    // edge that move is absorbed too
    let player = Player::new_at_coords(2, 0);
    let spectres = vec![Spectre::new_at_coords(2, 0)];
    let mut g = GameState::new_with_layout(player, spectres, Vec::new(), 5, 5).unwrap();
    g.tick();
    assert_eq!((g.get_spectres()[0].x(), g.get_spectres()[0].y()), (2, 0));
    assert!(g.has_lost());
}

#[test]
fn bad_layouts_are_rejected() {
    let p = Player::new_at_coords(3, 3);
    assert!(GameState::new_with_layout(p, Vec::new(), Vec::new(), 0, 20).is_none());
    assert!(GameState::new_with_layout(p, Vec::new(), Vec::new(), 32, -1).is_none());
    assert!(GameState::new_with_layout(p, Vec::new(), Vec::new(), 3, 3).is_none());
    let far_spectre = vec![Spectre::new_at_coords(40, 3)];
    assert!(GameState::new_with_layout(p, far_spectre, Vec::new(), 32, 20).is_none());
    let far_coin = vec![Coin::new_at_coords(3, 25, false)];
    assert!(GameState::new_with_layout(p, Vec::new(), far_coin, 32, 20).is_none());
    assert!(GameState::new_with_layout(p, Vec::new(), Vec::new(), 32, 20).is_some());
}

#[test]
fn commands_apply_in_fifo_order() {
    let cmds = vec![
        Command::Move(Direction::Right),
        Command::Move(Direction::Down),
        Command::Pause,
        Command::Pause,
        Command::Move(Direction::Left),
        Command::Unrecognized,
    ];
    let mut queued = GameState::new();
    let quit = queued.run_commands(&cmds);
    assert!(!quit);

    let mut stepped = GameState::new();
    for c in &cmds {
        assert!(!stepped.step(*c));
    }

    assert_eq!(queued.get_player(), stepped.get_player());
    assert_eq!(queued.get_spectres(), stepped.get_spectres());
    assert_eq!(queued.get_coins(), stepped.get_coins());
    assert_eq!(queued.score(), stepped.score());
    assert_eq!(queued.is_paused(), stepped.is_paused());
    assert_eq!(queued.has_lost(), stepped.has_lost());
}

#[test]
fn quit_stops_the_queue() {
    let cmds = vec![
        Command::Move(Direction::Right),
        Command::Quit,
        Command::Move(Direction::Left),
    ];
    let mut g = GameState::new();
    let quit = g.run_commands(&cmds);
    assert!(quit);
    // only the first command ran: one tick to the right, nothing after
    assert_eq!((g.get_player().x(), g.get_player().y()), (11, 10));

    let mut h = GameState::new();
    assert!(h.step(Command::Quit));
    assert_eq!((h.get_player().x(), h.get_player().y()), (10, 10));
}

#[test]
fn keys_classify_to_commands() {
    assert_eq!(classify_key(260), Command::Move(Direction::Left));
    assert_eq!(classify_key(261), Command::Move(Direction::Right));
    assert_eq!(classify_key(259), Command::Move(Direction::Up));
    assert_eq!(classify_key(258), Command::Move(Direction::Down));
    assert_eq!(classify_key(0x1B), Command::Pause);
    assert_eq!(classify_key(268), Command::Quit);
    assert_eq!(classify_key(0x3), Command::Quit);
    assert_eq!(classify_key('a' as i32), Command::Unrecognized);
    assert_eq!(classify_key(343), Command::Unrecognized);
}

#[test]
fn window_is_clamped_and_centred() {
    assert_eq!(centred_rect(40, 100, 20, 32), (10, 34, 20, 32));
    assert_eq!(centred_rect(10, 20, 20, 32), (0, 0, 10, 20));
    assert_eq!(centred_rect(21, 33, 20, 32), (0, 0, 20, 32));
}

#[test]
fn player_keeps_moving_along_last_heading() {
    let mut g = GameState::new();
    g.apply_command(Command::Move(Direction::Down));
    g.tick();
    g.tick();
    assert_eq!((g.get_player().x(), g.get_player().y()), (10, 12));
    g.apply_command(Command::Move(Direction::Right));
    g.tick();
    assert_eq!((g.get_player().x(), g.get_player().y()), (11, 12));
}

#[test]
fn consumed_coins_never_regrow() {
    let player = Player::new_at_coords(1, 1);
    let coins = vec![
        Coin::new_at_coords(2, 1, false),
        Coin::new_at_coords(3, 1, false),
        Coin::new_at_coords(4, 1, true),
    ];
    let mut g = GameState::new_with_layout(player, Vec::new(), coins, 8, 4).unwrap();
    let mut count = g.get_coins().len();
    g.apply_command(Command::Move(Direction::Right));
    for _ in 0..6 {
        g.tick();
        let now = g.get_coins().len();
        assert!(now <= count);
        count = now;
    }
    assert_eq!(g.get_coins().len(), 0);
    assert_eq!(g.score(), 7);
}

#[test]
fn reference_point_constructor() {
    // the point constructor shared by every module
    let p = rusman::game_objects::Point::new(4, 5);
    assert_eq!((p.x(), p.y()), (4, 5));
}
