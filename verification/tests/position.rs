use treasure_hunt::{Board, BoardError, Position};

const DIMS: (u32, u32) = (Board::DEFAULT_BOARD_WIDTH, Board::DEFAULT_BOARD_HEIGHT);
const MAX: u32 = Board::MOVE_MAX_DISTANCE;

#[test]
fn valid_dist() {
    assert!(
        Position::is_dist_legal((MAX, 0), DIMS, MAX),
        "moving to max x dist should be legal"
    );
    assert!(
        Position::is_dist_legal((0, MAX), DIMS, MAX),
        "moving to max y dist should be legal"
    );
    assert!(
        Position::is_dist_legal((MAX, MAX), DIMS, MAX),
        "max x and max y is legal"
    );
    assert!(
        Position::is_dist_legal((MAX / 2, MAX / 2), DIMS, MAX),
        "somewhere in the middle is legal"
    );
    assert!(
        Position::is_dist_legal((0, 0), DIMS, MAX),
        "not moving at all should be legal"
    );

    // x axis, round the other side
    assert!(Position::is_dist_legal((DIMS.0, 0), DIMS, MAX));
    assert!(Position::is_dist_legal((DIMS.0 - MAX, 0), DIMS, MAX));
    assert!(Position::is_dist_legal((DIMS.0 - (MAX / 2), 0), DIMS, MAX));

    // y axis, round the other side
    assert!(Position::is_dist_legal((0, DIMS.1), DIMS, MAX));
    assert!(Position::is_dist_legal((0, DIMS.1 - MAX), DIMS, MAX));
    assert!(Position::is_dist_legal((0, DIMS.1 - (MAX / 2)), DIMS, MAX));

    // both axes, round the other side
    assert!(Position::is_dist_legal((DIMS.0, DIMS.1), DIMS, MAX));
    assert!(Position::is_dist_legal(
        (DIMS.0 - MAX, DIMS.1 - MAX),
        DIMS,
        MAX
    ));
    assert!(Position::is_dist_legal(
        (DIMS.0 - (MAX / 2), DIMS.1 - (MAX / 2)),
        DIMS,
        MAX
    ));
}

#[test]
fn invalid_dist() {
    let board_width = DIMS.0;
    let board_height = DIMS.1;
    let max_dist = MAX;

    assert!(
        !Position::is_dist_legal((max_dist + 1, max_dist + 1), DIMS, MAX),
        "over max dist x and y should not be legal"
    );
    assert!(
        !Position::is_dist_legal(
            (board_width - (max_dist + 1), board_height - (max_dist + 1)),
            DIMS,
            MAX
        ),
        "warparound over max dist x and y should not be legal"
    );
    assert!(
        !Position::is_dist_legal((max_dist + 1, 0), DIMS, MAX),
        "over max dist x should not be legal"
    );
    assert!(
        !Position::is_dist_legal((board_width - (max_dist + 1), 0), DIMS, MAX),
        "warparound over max dist x should not be legal"
    );
    assert!(
        !Position::is_dist_legal((0, max_dist + 1), DIMS, MAX),
        "over max dist y should not be legal"
    );
    assert!(
        !Position::is_dist_legal((0, board_height - (max_dist + 1)), DIMS, MAX),
        "warparound over max dist y should not be legal"
    );
}

#[test]
fn position_valid_dec_from_str() {
    assert_eq!(Position::parse_dec_or_hex("0x10").unwrap(), 16);
    assert_eq!(Position::parse_dec_or_hex("0xA").unwrap(), 10);
    assert_eq!(Position::parse_dec_or_hex("0xb").unwrap(), 11);
    assert_eq!(Position::parse_dec_or_hex("10").unwrap(), 10);
    assert_eq!(Position::parse_dec_or_hex("0").unwrap(), 0);
    assert_eq!(Position::parse_dec_or_hex("0x0").unwrap(), 0);
    assert_eq!(
        Position::parse_dec_or_hex("4294967295").unwrap(),
        4294967295
    );
    assert_eq!(
        Position::parse_dec_or_hex("0xFFFFFFFF").unwrap(),
        4294967295
    );
}

#[test]
fn position_invalid_dec_from_str() {
    assert!(matches!(
        Position::parse_dec_or_hex("A").unwrap_err(),
        BoardError::FailedParse(_)
    ));
    assert!(matches!(
        Position::parse_dec_or_hex("12-34").unwrap_err(),
        BoardError::FailedParse(_)
    ));
    assert!(matches!(
        Position::parse_dec_or_hex("x34").unwrap_err(),
        BoardError::FailedParse(_)
    ));
    assert!(matches!(
        Position::parse_dec_or_hex("-0x34").unwrap_err(),
        BoardError::FailedParse(_)
    ));
    assert!(matches!(
        Position::parse_dec_or_hex("-20").unwrap_err(),
        BoardError::FailedParse(_)
    ));
    assert!(matches!(
        Position::parse_dec_or_hex("0xAG").unwrap_err(),
        BoardError::FailedParse(_)
    ));
    assert!(matches!(
        Position::parse_dec_or_hex("4294967296").unwrap_err(),
        BoardError::FailedParse(_)
    ));
    assert!(matches!(
        Position::parse_dec_or_hex("0x100000000").unwrap_err(),
        BoardError::FailedParse(_)
    ));
    assert!("0x10".parse::<i64>().is_err());
}

#[test]
fn position_valid_position_from_str() {
    assert_eq!(
        Position::from_str("[13,0xc]").unwrap(),
        Position { x: 13, y: 12 }
    );
    assert_eq!(
        Position::from_str("(13,0xc)").unwrap(),
        Position { x: 13, y: 12 }
    );
    assert_eq!(
        Position::from_str("[           13      ,         0xc        ]").unwrap(),
        Position { x: 13, y: 12 }
    );
    assert_eq!(
        Position::from_str(
            "[           1              3      ,         0         x          c        ]"
        )
        .unwrap(),
        Position { x: 13, y: 12 }
    );
    assert_eq!(
        Position::from_str("0x0,0").unwrap(),
        Position { x: 0, y: 0 }
    );
    assert_eq!(
        Position::from_str("0x12,0xc").unwrap(),
        Position { x: 18, y: 12 }
    );
}

#[test]
fn position_invalid_position_from_str() {
    assert!(matches!(
        Position::from_str("]13,0xc[").unwrap_err(),
        BoardError::InvalidFormat(_)
    ));
    assert!(matches!(
        Position::from_str(")13,0xc(").unwrap_err(),
        BoardError::InvalidFormat(_)
    ));
    assert!(matches!(
        Position::from_str("((13,0xc))").unwrap_err(),
        BoardError::InvalidFormat(_)
    ));
    assert!(matches!(
        Position::from_str("[[13,0xc]]").unwrap_err(),
        BoardError::InvalidFormat(_)
    ));
    assert!(matches!(
        Position::from_str("13,0xc]").unwrap_err(),
        BoardError::InvalidFormat(_)
    ));
    assert!(matches!(
        Position::from_str("13,0xc)").unwrap_err(),
        BoardError::InvalidFormat(_)
    ));
    assert!(matches!(
        Position::from_str("(13,0xc").unwrap_err(),
        BoardError::InvalidFormat(_)
    ));
    assert!(matches!(
        Position::from_str("[13,0xc").unwrap_err(),
        BoardError::InvalidFormat(_)
    ));
    assert!(matches!(
        Position::from_str("(13,0xc]").unwrap_err(),
        BoardError::InvalidFormat(_)
    ));
    assert!(matches!(
        Position::from_str("[13,0xc)").unwrap_err(),
        BoardError::InvalidFormat(_)
    ));

    assert!(matches!(
        Position::from_str("-4,-6").unwrap_err(),
        BoardError::FailedParse(_)
    ));
    assert!(matches!(
        Position::from_str("-0,-0x0").unwrap_err(),
        BoardError::FailedParse(_)
    ));

    assert!(matches!(
        Position::from_str("(13,0xc,12)").unwrap_err(),
        BoardError::Not2Dimensional(_)
    ));
    assert!(matches!(
        Position::from_str("(13,12,)").unwrap_err(),
        BoardError::Not2Dimensional(_)
    ));
    assert!(matches!(
        Position::from_str("(13,,12)").unwrap_err(),
        BoardError::Not2Dimensional(_)
    ));
    assert!(matches!(
        Position::from_str("12").unwrap_err(),
        BoardError::Not2Dimensional(_)
    ));

    assert!(matches!(
        Position::from_str("").unwrap_err(),
        BoardError::InvalidFormat(_)
    ));
    assert!(matches!(
        Position::from_str("hello there, general kenobi").unwrap_err(),
        BoardError::InvalidFormat(_)
    ));
    assert!(matches!(
        Position::from_str("To zim zum running").unwrap_err(),
        BoardError::InvalidFormat(_)
    ));
}

#[test]
fn util_valid_dec_from_str() {
    assert_eq!(Position::parse_dec_or_hex("0x10").unwrap(), 16);
    assert_eq!(Position::parse_dec_or_hex("0xA").unwrap(), 10);
    assert_eq!(Position::parse_dec_or_hex("0xb").unwrap(), 11);
    assert_eq!(Position::parse_dec_or_hex("10").unwrap(), 10);
}

#[test]
fn util_invalid_dec_from_str() {
    assert!(matches!(
        Position::parse_dec_or_hex("A").unwrap_err(),
        BoardError::FailedParse(_)
    ));
    assert!(matches!(
        Position::parse_dec_or_hex("-20").unwrap_err(),
        BoardError::FailedParse(_)
    ));
    assert!(matches!(
        Position::parse_dec_or_hex("0xAG").unwrap_err(),
        BoardError::FailedParse(_)
    ));
    assert!("0x10".parse::<i64>().is_err());
}

#[test]
fn util_valid_position_from_str() {
    assert_eq!(
        Position::from_str("[13,0xc]").unwrap(),
        Position { x: 13, y: 12 }
    );
    assert_eq!(
        Position::from_str("(13,0xc)").unwrap(),
        Position { x: 13, y: 12 }
    );
    assert_eq!(
        Position::from_str("[           13      ,         0xc        ]").unwrap(),
        Position { x: 13, y: 12 }
    );
    assert_eq!(
        Position::from_str(
            "[           1              3      ,         0         x          c        ]"
        )
        .unwrap(),
        Position { x: 13, y: 12 }
    );
    // a bracket is closed by its own kind only
    assert!(matches!(
        Position::from_str("[13,12)").unwrap_err(),
        BoardError::InvalidFormat(_)
    ));
    assert_eq!(
        Position::from_str("0x12,0xc").unwrap(),
        Position { x: 18, y: 12 }
    );
}

#[test]
fn util_invalid_position_from_str() {
    // the shape of the line is judged before its numbers
    assert!(matches!(
        Position::from_str("]13,0xc[").unwrap_err(),
        BoardError::InvalidFormat(_)
    ));
    assert!(matches!(
        Position::from_str(")13,0xc(").unwrap_err(),
        BoardError::InvalidFormat(_)
    ));
    assert!(matches!(
        Position::from_str("-4,-6").unwrap_err(),
        BoardError::FailedParse(_)
    ));
    assert!(matches!(
        Position::from_str("(13,0xc,12)").unwrap_err(),
        BoardError::Not2Dimensional(_)
    ));
    assert!(matches!(
        Position::from_str("12").unwrap_err(),
        BoardError::Not2Dimensional(_)
    ));
    assert!(matches!(
        Position::from_str("").unwrap_err(),
        BoardError::InvalidFormat(_)
    ));
    assert!(matches!(
        Position::from_str("hello there, general kenobi").unwrap_err(),
        BoardError::InvalidFormat(_)
    ));
    assert!(matches!(
        Position::from_str("To zoom running").unwrap_err(),
        BoardError::InvalidFormat(_)
    ));
}

#[test]
fn a_position_is_parsed_from_a_line() {
    assert_eq!("[13,0xc]".parse::<Position>(), Ok(Position { x: 13, y: 12 }));
    assert_eq!(" 1 , 2 ".parse::<Position>(), Position::from_str(" 1 , 2 "));
    assert_eq!(
        "1,2,3".parse::<Position>(),
        Err(BoardError::Not2Dimensional(3))
    );
    assert_eq!(
        "(1,2".parse::<Position>(),
        Err(BoardError::InvalidFormat(
            "Incorrect parenthesis format".to_string()
        ))
    );
    let parsed: Result<Position, BoardError> = std::str::FromStr::from_str("-4,-6");
    assert!(matches!(parsed, Err(BoardError::FailedParse(_))));
}
