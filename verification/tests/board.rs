use rand::rngs::StdRng;
use rand::SeedableRng;
use treasure_hunt::{
    Board, BoardError, Color, CoordinateSpace, GameSettings, Position, Search,
};

fn default_space() -> CoordinateSpace {
    CoordinateSpace::new(
        Board::DEFAULT_BOARD_WIDTH,
        Board::DEFAULT_BOARD_HEIGHT,
        Board::MOVE_MAX_DISTANCE,
    )
    .unwrap()
}

#[test]
fn valid_position_in_board() {
    let space = default_space();
    let bottom_left = Position { x: 0, y: 0 };
    let bottom_right = Position {
        x: Board::DEFAULT_BOARD_WIDTH - 1,
        y: 0,
    };
    let top_left = Position {
        x: 0,
        y: Board::DEFAULT_BOARD_HEIGHT - 1,
    };
    let top_right = Position {
        x: Board::DEFAULT_BOARD_WIDTH - 1,
        y: Board::DEFAULT_BOARD_HEIGHT - 1,
    };
    let somewhere_inside = Position {
        x: (Board::DEFAULT_BOARD_WIDTH - 1) / 2,
        y: (Board::DEFAULT_BOARD_HEIGHT - 1) / 2,
    };

    assert!(space.is_in_board(&bottom_left));
    assert!(space.is_in_board(&bottom_right));
    assert!(space.is_in_board(&top_left));
    assert!(space.is_in_board(&top_right));
    assert!(space.is_in_board(&somewhere_inside));
}

#[test]
fn invalid_position_in_board() {
    let space = default_space();
    let bottom_right_and_one_right = Position {
        x: Board::DEFAULT_BOARD_WIDTH,
        y: 0,
    };
    let top_left_and_one_up = Position {
        x: 0,
        y: Board::DEFAULT_BOARD_HEIGHT,
    };
    let top_right_and_one_up = Position {
        x: (Board::DEFAULT_BOARD_WIDTH - 1),
        y: Board::DEFAULT_BOARD_HEIGHT,
    };
    let top_right_and_one_right = Position {
        x: Board::DEFAULT_BOARD_WIDTH,
        y: (Board::DEFAULT_BOARD_HEIGHT - 1),
    };
    let top_right_and_one_diagonal_out = Position {
        x: Board::DEFAULT_BOARD_WIDTH,
        y: Board::DEFAULT_BOARD_HEIGHT,
    };

    let multiplicator: u32 = 5;

    let oob_diagonal = Position {
        x: (Board::DEFAULT_BOARD_WIDTH) * multiplicator,
        y: (Board::DEFAULT_BOARD_HEIGHT) * multiplicator,
    };
    let oob_up = Position {
        x: 0,
        y: (Board::DEFAULT_BOARD_HEIGHT) * multiplicator,
    };
    let oob_right = Position {
        x: (Board::DEFAULT_BOARD_WIDTH) * multiplicator,
        y: 0,
    };
    let oob_diagonal_max = Position {
        x: u32::MAX,
        y: u32::MAX,
    };
    let oob_up_max = Position { x: 0, y: u32::MAX };
    let oob_right_max = Position { x: u32::MAX, y: 0 };

    assert!(!space.is_in_board(&bottom_right_and_one_right));
    assert!(!space.is_in_board(&top_left_and_one_up));
    assert!(!space.is_in_board(&top_right_and_one_up));
    assert!(!space.is_in_board(&top_right_and_one_right));
    assert!(!space.is_in_board(&top_right_and_one_diagonal_out));
    assert!(!space.is_in_board(&oob_diagonal));
    assert!(!space.is_in_board(&oob_up));
    assert!(!space.is_in_board(&oob_right));
    assert!(!space.is_in_board(&oob_diagonal_max));
    assert!(!space.is_in_board(&oob_up_max));
    assert!(!space.is_in_board(&oob_right_max));
}

#[test]
fn coordinate_modulo_in_board() {
    let space = default_space();
    let bottom_left = Position { x: 0, y: 0 };
    let bottom_right = Position {
        x: Board::DEFAULT_BOARD_WIDTH - 1,
        y: 0,
    };
    let top_left = Position {
        x: 0,
        y: Board::DEFAULT_BOARD_HEIGHT - 1,
    };
    let top_right = Position {
        x: Board::DEFAULT_BOARD_WIDTH - 1,
        y: Board::DEFAULT_BOARD_HEIGHT - 1,
    };
    let somewhere_inside = Position {
        x: (Board::DEFAULT_BOARD_WIDTH - 1) / 2,
        y: (Board::DEFAULT_BOARD_HEIGHT - 1) / 2,
    };

    assert_eq!(space.coordinate_modulo(bottom_left.to_i64()), bottom_left);
    assert_eq!(space.coordinate_modulo(bottom_right.to_i64()), bottom_right);
    assert_eq!(space.coordinate_modulo(top_left.to_i64()), top_left);
    assert_eq!(space.coordinate_modulo(top_right.to_i64()), top_right);
    assert_eq!(
        space.coordinate_modulo(somewhere_inside.to_i64()),
        somewhere_inside
    );
}

#[test]
fn coordinate_modulator_out_of_board() {
    let space = default_space();
    let width = Board::DEFAULT_BOARD_WIDTH as i64;
    let height = Board::DEFAULT_BOARD_HEIGHT as i64;

    let bottom_left_and_one_down: (i64, i64) = (0, -1);
    let bottom_left_and_one_left: (i64, i64) = (-1, 0);
    let bottom_left_and_diagonal_out: (i64, i64) = (-1, -1);

    let bottom_right_and_one_right: (i64, i64) = (width, 0);
    let bottom_right_and_one_down: (i64, i64) = (width - 1, -1);
    let bottom_right_and_diagonal_out: (i64, i64) = (width, -1);

    let top_left_and_one_up: (i64, i64) = (0, height);
    let top_left_and_one_left: (i64, i64) = (-1, height - 1);
    let top_left_and_diagonal_out: (i64, i64) = (-1, height);

    let top_right_and_one_up: (i64, i64) = (width - 1, height);
    let top_right_and_one_right: (i64, i64) = (width, height - 1);
    let top_right_and_one_diagonal_out: (i64, i64) = (width, height);

    let multiplicator: i64 = 5;

    let oob_quadrant_1: (i64, i64) = (width * multiplicator, height * multiplicator);
    let oob_quadrant_2: (i64, i64) = (-width * multiplicator, height * multiplicator);
    let oob_quadrant_3: (i64, i64) = (-width * multiplicator, -height * multiplicator);
    let oob_quadrant_4: (i64, i64) = (width * multiplicator, -height * multiplicator);

    let oob_quadrant_1_max: (i64, i64) = (i64::MAX, i64::MAX);
    let oob_quadrant_2_min_max: (i64, i64) = (i64::MIN, i64::MAX);
    let oob_quadrant_3_min: (i64, i64) = (i64::MIN, i64::MIN);
    let oob_quadrant_4_max_min: (i64, i64) = (i64::MAX, i64::MIN);

    let bottom_left = Position { x: 0, y: 0 };
    let bottom_right = Position {
        x: Board::DEFAULT_BOARD_WIDTH - 1,
        y: 0,
    };
    let top_left = Position {
        x: 0,
        y: Board::DEFAULT_BOARD_HEIGHT - 1,
    };
    let top_right = Position {
        x: Board::DEFAULT_BOARD_WIDTH - 1,
        y: Board::DEFAULT_BOARD_HEIGHT - 1,
    };

    assert_eq!(space.coordinate_modulo(bottom_left_and_one_left), bottom_right);
    assert_eq!(space.coordinate_modulo(bottom_left_and_one_down), top_left);
    assert_eq!(
        space.coordinate_modulo(bottom_left_and_diagonal_out),
        top_right
    );

    assert_eq!(
        space.coordinate_modulo(bottom_right_and_one_right),
        bottom_left
    );
    assert_eq!(space.coordinate_modulo(bottom_right_and_one_down), top_right);
    assert_eq!(
        space.coordinate_modulo(bottom_right_and_diagonal_out),
        top_left
    );

    assert_eq!(space.coordinate_modulo(top_left_and_one_left), top_right);
    assert_eq!(space.coordinate_modulo(top_left_and_one_up), bottom_left);
    assert_eq!(
        space.coordinate_modulo(top_left_and_diagonal_out),
        bottom_right
    );

    assert_eq!(space.coordinate_modulo(top_right_and_one_up), bottom_right);
    assert_eq!(space.coordinate_modulo(top_right_and_one_right), top_left);
    assert_eq!(
        space.coordinate_modulo(top_right_and_one_diagonal_out),
        bottom_left
    );

    assert_eq!(space.coordinate_modulo(oob_quadrant_1), bottom_left);
    assert_eq!(space.coordinate_modulo(oob_quadrant_2), bottom_left);
    assert_eq!(space.coordinate_modulo(oob_quadrant_3), bottom_left);
    assert_eq!(space.coordinate_modulo(oob_quadrant_4), bottom_left);

    assert!(
        space.is_in_board(&space.coordinate_modulo(oob_quadrant_1_max)),
        "should be in board"
    );
    assert!(
        space.is_in_board(&space.coordinate_modulo(oob_quadrant_2_min_max)),
        "should be in board"
    );
    assert!(
        space.is_in_board(&space.coordinate_modulo(oob_quadrant_3_min)),
        "should be in board"
    );
    assert!(
        space.is_in_board(&space.coordinate_modulo(oob_quadrant_4_max_min)),
        "should be in board"
    );
}

#[test]
fn random_coordinates_same_seed_same_result() {
    let space = default_space();
    let test_seed: u64 = 12;
    assert_eq!(
        Board::random_coordinates(&space, &mut StdRng::seed_from_u64(test_seed)),
        Board::random_coordinates(&space, &mut StdRng::seed_from_u64(test_seed))
    );
}

#[test]
fn set_player_coordinates_works() {
    let mut test_board = Board::new(GameSettings::get_default_settings());
    let test_position = Position {
        x: (Board::DEFAULT_BOARD_WIDTH - 1) / 2,
        y: (Board::DEFAULT_BOARD_HEIGHT - 1) / 2,
    };
    test_board.set_player_coordinates(test_position.to_i64());
    assert_eq!(test_board.player_coordinates, test_position);
}

#[test]
fn search_no_treasure() {
    let mut test_board = Board::new(GameSettings::get_default_settings());
    assert!(test_board.search_player_position() != Search::Treasure);
    test_board.set_player_coordinates(Position { x: 0, y: 0 }.to_i64());
    assert!(test_board.search_player_position() != Search::Treasure);
    test_board.set_player_coordinates(Position { x: 0, y: 1 }.to_i64());
    assert!(test_board.search_player_position() != Search::Treasure);
    test_board.set_player_coordinates(Position { x: 0, y: 2 }.to_i64());
    assert!(test_board.search_player_position() != Search::Treasure);
    test_board.set_player_coordinates(Position { x: 0, y: 3 }.to_i64());
    assert!(test_board.search_player_position() != Search::Treasure);
    test_board.set_player_coordinates(Position { x: 1, y: 3 }.to_i64());
    assert!(test_board.search_player_position() != Search::Treasure);
    test_board.set_player_coordinates(Position { x: 2, y: 3 }.to_i64());
    assert!(test_board.search_player_position() != Search::Treasure);
    test_board.set_player_coordinates(
        Position {
            x: 0,
            y: Board::DEFAULT_BOARD_HEIGHT - 1,
        }
        .to_i64(),
    );
    assert!(test_board.search_player_position() != Search::Treasure);
    test_board.set_player_coordinates(
        Position {
            x: 0,
            y: Board::DEFAULT_BOARD_HEIGHT - 2,
        }
        .to_i64(),
    );
    assert!(test_board.search_player_position() != Search::Treasure);
    test_board.set_player_coordinates(
        Position {
            x: 0,
            y: Board::DEFAULT_BOARD_HEIGHT - 3,
        }
        .to_i64(),
    );
    assert!(test_board.tracker[0][0]);
    assert!(test_board.tracker[2][3]);
    assert!(test_board.tracker[0][Board::DEFAULT_BOARD_HEIGHT as usize - 2]);
}

#[test]
fn new_board_is_empty_and_on_the_board() {
    let settings = GameSettings {
        seed: 99,
        player_color: Color::Cyan,
        player_tile: '#',
        board_width: 7,
        board_height: 3,
    };
    let board = Board::new(settings);
    assert_eq!(board.space, CoordinateSpace { width: 7, height: 3, max_distance: 4 });
    assert_eq!(board.player_color, Color::Cyan);
    assert_eq!(board.player_tile, '#');
    assert!(board.space.is_in_board(&board.player_coordinates));
    assert!(board.space.is_in_board(&board.treasure_coordinates));
    assert_eq!(board.tracker.len(), 7);
    assert!(board.tracker.iter().all(|column| column.len() == 3));
    assert!(board.tracker.iter().all(|column| column.iter().all(|cell| !cell)));
    let again = Board::new(settings);
    assert_eq!(again.player_coordinates, board.player_coordinates);
    assert_eq!(again.treasure_coordinates, board.treasure_coordinates);
}

#[test]
fn default_settings_are_the_constants() {
    assert_eq!(
        GameSettings::get_default_settings(),
        GameSettings {
            seed: 2,
            player_color: Color::Red,
            player_tile: '@',
            board_width: 15,
            board_height: 15,
        }
    );
    assert_eq!(Board::MOVE_MAX_DISTANCE, 4);
    assert_eq!(Board::WATER_TILE, '~');
    assert_eq!(Board::TREASURE_TILE, 'X');
    assert_eq!(Board::BOARD_COLOR, Color::White);
}

#[test]
fn teleport_moves_only_within_reach() {
    let mut board = Board::new(GameSettings::get_default_settings());
    board.set_player_coordinates((0, 0));
    assert_eq!(board.teleport_logic(&Position { x: 4, y: 4 }), Ok(()));
    assert_eq!(board.player_coordinates, Position { x: 4, y: 4 });
    assert_eq!(
        board.teleport_logic(&Position { x: 9, y: 4 }),
        Err(BoardError::InvalidMove(
            "You can't do this move, it's too far".to_string()
        ))
    );
    assert_eq!(board.player_coordinates, Position { x: 4, y: 4 });
    // round the edge: from column 4 to column 14 is five cells to the left
    assert!(board.teleport_logic(&Position { x: 14, y: 4 }).is_err());
    assert_eq!(board.teleport_logic(&Position { x: 0, y: 0 }), Ok(()));
    assert_eq!(board.player_coordinates, Position { x: 0, y: 0 });
    assert_eq!(board.teleport_logic(&Position { x: 11, y: 3 }), Ok(()));
    assert_eq!(board.player_coordinates, Position { x: 11, y: 3 });
}

#[test]
fn search_tells_the_distance_or_the_treasure() {
    let mut board = Board::new(GameSettings::get_default_settings());
    board.treasure_coordinates = Position { x: 14, y: 2 };
    board.set_player_coordinates((1, 9));
    // two columns round the edge, seven rows straight
    assert_eq!(board.search_player_position(), Search::Nothing(7));
    assert!(board.tracker[1][9]);
    board.set_player_coordinates((13, 14));
    // one column straight, three rows round the edge
    assert_eq!(board.search_player_position(), Search::Nothing(3));
    assert!(board.tracker[13][14]);
    board.set_player_coordinates((14, 2));
    assert_eq!(board.search_player_position(), Search::Treasure);
    assert!(!board.tracker[14][2]);
    assert!(board.tracker[1][9]);
}

#[test]
fn each_cell_has_its_tile() {
    let mut board = Board::new(GameSettings {
        seed: 5,
        player_color: Color::Magenta,
        player_tile: '#',
        board_width: 4,
        board_height: 6,
    });
    board.treasure_coordinates = Position { x: 3, y: 5 };
    board.set_player_coordinates((1, 1));
    assert_eq!(board.search_player_position(), Search::Nothing(2));
    board.set_player_coordinates((2, 1));
    assert_eq!(board.tile_at(2, 1), (Color::Magenta, '#'));
    assert_eq!(board.tile_at(3, 5), (Color::Yellow, 'X'));
    assert_eq!(board.tile_at(1, 1), (Color::Magenta, '~'));
    assert_eq!(board.tile_at(0, 0), (Color::Blue, '~'));
    assert_eq!(board.tile_at(3, 0), (Color::Blue, '~'));
    // the player is drawn over the treasure
    board.set_player_coordinates((3, 5));
    assert_eq!(board.tile_at(3, 5), (Color::Magenta, '#'));
}

#[test]
fn a_board_is_well_formed_until_it_is_broken() {
    let mut board = Board::new(GameSettings::get_default_settings());
    assert!(board.is_well_formed());
    board.set_player_coordinates((-3, 40));
    assert!(board.is_well_formed());
    assert_eq!(board.search_player_position() == Search::Treasure, board.player_coordinates == board.treasure_coordinates);
    assert!(board.is_well_formed());

    let sound = |change: &dyn Fn(&mut Board)| {
        let mut board = Board::new(GameSettings::get_default_settings());
        change(&mut board);
        board.is_well_formed()
    };
    assert!(sound(&|_| ()));
    assert!(!sound(&|b| b.player_coordinates = Position { x: 15, y: 0 }));
    assert!(!sound(&|b| b.player_coordinates = Position { x: 0, y: 15 }));
    assert!(!sound(&|b| b.treasure_coordinates = Position { x: 15, y: 15 }));
    assert!(!sound(&|b| b.space.width = 0));
    assert!(!sound(&|b| b.space.height = 0));
    assert!(!sound(&|b| b.space.width = 14));
    assert!(!sound(&|b| b.space.height = 16));
    assert!(!sound(&|b| {
        b.tracker.pop();
    }));
    assert!(!sound(&|b| b.tracker.push(vec![false; 15])));
    assert!(!sound(&|b| {
        b.tracker[14].pop();
    }));
    assert!(!sound(&|b| b.tracker[0].push(true)));
    assert!(sound(&|b| b.tracker[3][4] = true));
    assert!(sound(&|b| b.space.max_distance = 0));
}
