use oxiboard::board::{Board, Point, WrongBoardStateError};

fn pt(x: f64, y: f64) -> Point {
    Point::from_bits(x.to_bits(), y.to_bits())
}

fn current_points(board: &Board) -> Vec<Point> {
    board.current_glyph().expect("a glyph is being drawn").points().clone()
}

fn finished_points(board: &Board) -> Vec<Vec<Point>> {
    match board {
        Board::Static(b) => b.glyphs().iter().map(|g| g.points().clone()).collect(),
        Board::Active(b) => b.finished().glyphs().iter().map(|g| g.points().clone()).collect(),
    }
}

#[test]
fn fresh_board_is_idle_and_begins() {
    let mut board = Board::new();
    assert!(!board.is_active());
    assert!(finished_points(&board).is_empty());
    assert!(board.begin_drawing(pt(3.0, 4.0)).is_ok());
    assert!(board.is_active());
    assert_eq!(current_points(&board), vec![pt(3.0, 4.0)]);
}

#[test]
fn begin_while_active_is_refused() {
    let mut board = Board::new();
    board.begin_drawing(pt(0.0, 0.0)).unwrap();
    board.add_point(pt(1.0, 2.0)).unwrap();
    let err = board.begin_drawing(pt(9.0, 9.0)).unwrap_err();
    assert!(err.expects_static());
    assert!(board.is_active());
    assert_eq!(current_points(&board), vec![pt(0.0, 0.0), pt(1.0, 2.0)]);
}

#[test]
fn add_point_while_idle_is_refused() {
    let mut board = Board::new();
    let err = board.add_point(pt(1.0, 1.0)).unwrap_err();
    assert!(!err.expects_static());
    assert!(!board.is_active());
    assert!(finished_points(&board).is_empty());
}

#[test]
fn finish_while_idle_is_refused() {
    let mut board = Board::new();
    board.begin_drawing(pt(0.0, 0.0)).unwrap();
    board.finish().unwrap();
    let err = board.finish().unwrap_err();
    assert!(!err.expects_static());
    assert!(!board.is_active());
    assert_eq!(finished_points(&board), vec![vec![pt(0.0, 0.0)]]);
}

#[test]
fn stroke_round_trip() {
    let mut board = Board::new();
    board.begin_drawing(pt(5.0, 5.0)).unwrap();
    board.finish().unwrap();
    let pts = vec![pt(0.0, 0.0), pt(1.5, -2.0), pt(3.0, 7.25), pt(3.0, 7.25)];
    board.begin_drawing(pts[0]).unwrap();
    for p in &pts[1..] {
        board.add_point(*p).unwrap();
    }
    board.finish().unwrap();
    assert!(!board.is_active());
    assert_eq!(finished_points(&board), vec![vec![pt(5.0, 5.0)], pts]);
}

#[test]
fn single_point_round_trip() {
    let mut board = Board::new();
    board.begin_drawing(pt(2.0, 1.0)).unwrap();
    board.finish().unwrap();
    assert_eq!(finished_points(&board), vec![vec![pt(2.0, 1.0)]]);
}

#[test]
fn misuse_ordering() {
    let mut board = Board::new();
    let err = board.add_point(pt(1.0, 1.0)).unwrap_err();
    assert!(!err.expects_static());
    assert!(board.begin_drawing(pt(0.0, 0.0)).is_ok());
    let err = board.begin_drawing(pt(5.0, 5.0)).unwrap_err();
    assert!(err.expects_static());
    let err = board.begin_drawing(pt(6.0, 6.0)).unwrap_err();
    assert!(err.expects_static());
    assert!(board.is_active());
    assert_eq!(current_points(&board), vec![pt(0.0, 0.0)]);
}

#[test]
fn current_glyph_on_idle_board_is_refused() {
    let board = Board::new();
    let err = board.current_glyph().unwrap_err();
    assert!(!err.expects_static());
    assert_eq!(err.description(), Some("there is no current glyph"));
}

#[test]
fn error_messages() {
    let e = WrongBoardStateError::expected_static(Some("cannot start drawing another glyph"));
    assert_eq!(e.message(), "A glyph is already being drawn, so cannot start drawing another glyph");
    let e = WrongBoardStateError::expected_active(None);
    assert!(!e.expects_static());
    assert_eq!(e.description(), None);
    assert_eq!(e.message(), "No glyph is currently being drawn");
    let mut board = Board::new();
    let e = board.finish().unwrap_err();
    assert_eq!(e.message(), "No glyph is currently being drawn, so cannot finish drawing the current glyph");
}
