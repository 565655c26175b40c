use tetris::piece::{Piece, Rotation, Tetromino};

fn drawn(piece: Piece, rotation: Rotation) -> Vec<String> {
    let blocks = Tetromino { piece, rotation }.to_blocks();
    blocks
        .as_rows()
        .iter()
        .map(|row| {
            row.iter()
                .map(|cell| match cell {
                    Some(p) => {
                        assert_eq!(*p, piece);
                        'X'
                    }
                    None => '.',
                })
                .collect::<String>()
        })
        .collect()
}

fn expect(piece: Piece, rotation: Rotation, rows: &[&str]) {
    let want: Vec<String> = rows.iter().map(|r| r.to_string()).collect();
    assert_eq!(drawn(piece, rotation), want);
}

#[test]
fn shapes_of_i() {
    expect(Piece::I, Rotation::Up, &["....", "XXXX", "....", "...."]);
    expect(Piece::I, Rotation::Right, &["..X.", "..X.", "..X.", "..X."]);
    expect(Piece::I, Rotation::Down, &["....", "....", "XXXX", "...."]);
    expect(Piece::I, Rotation::Left, &[".X..", ".X..", ".X..", ".X.."]);
}

#[test]
fn shapes_of_j() {
    expect(Piece::J, Rotation::Up, &["X..", "XXX", "..."]);
    expect(Piece::J, Rotation::Right, &[".XX", ".X.", ".X."]);
    expect(Piece::J, Rotation::Down, &["...", "XXX", "..X"]);
    expect(Piece::J, Rotation::Left, &[".X.", ".X.", "XX."]);
}

#[test]
fn shapes_of_l() {
    expect(Piece::L, Rotation::Up, &["..X", "XXX", "..."]);
    expect(Piece::L, Rotation::Right, &[".X.", ".X.", ".XX"]);
    expect(Piece::L, Rotation::Down, &["...", "XXX", "X.."]);
    expect(Piece::L, Rotation::Left, &["XX.", ".X.", ".X."]);
}

#[test]
fn shapes_of_s() {
    expect(Piece::S, Rotation::Up, &[".XX", "XX.", "..."]);
    expect(Piece::S, Rotation::Right, &[".X.", ".XX", "..X"]);
    expect(Piece::S, Rotation::Down, &["...", ".XX", "XX."]);
    expect(Piece::S, Rotation::Left, &["X..", "XX.", ".X."]);
}

#[test]
fn shapes_of_t() {
    expect(Piece::T, Rotation::Up, &[".X.", "XXX", "..."]);
    expect(Piece::T, Rotation::Right, &[".X.", ".XX", ".X."]);
    expect(Piece::T, Rotation::Down, &["...", "XXX", ".X."]);
    expect(Piece::T, Rotation::Left, &[".X.", "XX.", ".X."]);
}

#[test]
fn shapes_of_z() {
    expect(Piece::Z, Rotation::Up, &["XX.", ".XX", "..."]);
    expect(Piece::Z, Rotation::Right, &["..X", ".XX", ".X."]);
    expect(Piece::Z, Rotation::Down, &["...", "XX.", ".XX"]);
    expect(Piece::Z, Rotation::Left, &[".X.", "XX.", "X.."]);
}

#[test]
fn shape_of_o_is_the_same_in_every_orientation() {
    for rotation in [Rotation::Up, Rotation::Right, Rotation::Down, Rotation::Left] {
        expect(Piece::O, rotation, &["XX", "XX"]);
    }
}

#[test]
fn occupied_lists_the_filled_cells_in_reading_order() {
    let t = Tetromino { piece: Piece::T, rotation: Rotation::Down };
    assert_eq!(t.occupied(), vec![(1, 0), (1, 1), (1, 2), (2, 1)]);
    let i = Tetromino { piece: Piece::I, rotation: Rotation::Left };
    assert_eq!(i.occupied(), vec![(0, 1), (1, 1), (2, 1), (3, 1)]);
    let o = Tetromino { piece: Piece::O, rotation: Rotation::Up };
    assert_eq!(o.occupied(), vec![(0, 0), (0, 1), (1, 0), (1, 1)]);
}

#[test]
fn every_shape_has_four_cells() {
    for piece in [Piece::I, Piece::J, Piece::L, Piece::O, Piece::S, Piece::Z, Piece::T] {
        for rotation in [Rotation::Up, Rotation::Right, Rotation::Down, Rotation::Left] {
            assert_eq!(Tetromino { piece, rotation }.occupied().len(), 4);
        }
    }
}

#[test]
fn sizes_of_the_squares() {
    assert_eq!(Piece::I.size(), 4);
    assert_eq!(Piece::O.size(), 2);
    for piece in [Piece::J, Piece::L, Piece::S, Piece::Z, Piece::T] {
        assert_eq!(piece.size(), 3);
    }
}

#[test]
fn rotation_cycles_clockwise() {
    assert_eq!(Rotation::Up.clockwise(), Rotation::Right);
    assert_eq!(Rotation::Right.clockwise(), Rotation::Down);
    assert_eq!(Rotation::Down.clockwise(), Rotation::Left);
    assert_eq!(Rotation::Left.clockwise(), Rotation::Up);
}

#[test]
fn rotation_cycles_counter_clockwise() {
    assert_eq!(Rotation::Up.counter_clockwise(), Rotation::Left);
    assert_eq!(Rotation::Left.counter_clockwise(), Rotation::Down);
    assert_eq!(Rotation::Down.counter_clockwise(), Rotation::Right);
    assert_eq!(Rotation::Right.counter_clockwise(), Rotation::Up);
}

#[test]
fn turning_back_and_forth_gives_the_orientation_back() {
    for r in [Rotation::Up, Rotation::Right, Rotation::Down, Rotation::Left] {
        assert_eq!(r.clockwise().counter_clockwise(), r);
        assert_eq!(r.counter_clockwise().clockwise(), r);
        assert_eq!(r.clockwise().clockwise().clockwise().clockwise(), r);
    }
}

#[test]
fn default_rotation_is_down() {
    assert_eq!(Rotation::default(), Rotation::Down);
}

#[test]
fn colours_of_the_pieces() {
    assert_eq!(Piece::I.to_color(), (0, 255, 255));
    assert_eq!(Piece::O.to_color(), (255, 255, 0));
    assert_eq!(Piece::T.to_color(), (128, 0, 128));
    assert_eq!(Piece::S.to_color(), (0, 255, 0));
    assert_eq!(Piece::Z.to_color(), (255, 0, 0));
    assert_eq!(Piece::J.to_color(), (0, 0, 255));
    assert_eq!(Piece::L.to_color(), (255, 165, 0));
    let t = Tetromino { piece: Piece::L, rotation: Rotation::Up };
    assert_eq!(t.to_color(), (255, 165, 0));
}
