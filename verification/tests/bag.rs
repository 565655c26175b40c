use tetris::bag::{full_bag, randomize_piece, remove_piece, take_piece};
use tetris::piece::Piece;

const ALL: [Piece; 7] = [Piece::I, Piece::J, Piece::L, Piece::O, Piece::S, Piece::Z, Piece::T];

#[test]
fn full_bag_holds_the_seven_pieces_in_order() {
    assert_eq!(full_bag(), ALL.to_vec());
}

#[test]
fn remove_piece_takes_the_piece_out_and_keeps_the_order() {
    let mut bag = full_bag();
    remove_piece(&mut bag, Piece::O);
    assert_eq!(bag, vec![Piece::I, Piece::J, Piece::L, Piece::S, Piece::Z, Piece::T]);
    remove_piece(&mut bag, Piece::O);
    assert_eq!(bag, vec![Piece::I, Piece::J, Piece::L, Piece::S, Piece::Z, Piece::T]);
    remove_piece(&mut bag, Piece::T);
    remove_piece(&mut bag, Piece::I);
    assert_eq!(bag, vec![Piece::J, Piece::L, Piece::S, Piece::Z]);
}

#[test]
fn remove_piece_takes_every_occurrence() {
    let mut bag = vec![Piece::S, Piece::Z, Piece::S, Piece::S, Piece::I];
    remove_piece(&mut bag, Piece::S);
    assert_eq!(bag, vec![Piece::Z, Piece::I]);
    let mut empty: Vec<Piece> = Vec::new();
    remove_piece(&mut empty, Piece::S);
    assert!(empty.is_empty());
}

#[test]
fn take_piece_refills_a_bag_that_is_used_up() {
    let mut bag: Vec<Piece> = Vec::new();
    take_piece(&mut bag, Piece::L);
    assert_eq!(bag, vec![Piece::I, Piece::J, Piece::O, Piece::S, Piece::Z, Piece::T]);
    take_piece(&mut bag, Piece::I);
    assert_eq!(bag, vec![Piece::J, Piece::O, Piece::S, Piece::Z, Piece::T]);
}

#[test]
fn take_piece_of_the_last_piece_leaves_the_bag_empty() {
    let mut bag = vec![Piece::Z];
    take_piece(&mut bag, Piece::Z);
    assert!(bag.is_empty());
}

#[test]
fn seven_draws_from_a_full_bag_deal_every_piece_once() {
    for _ in 0..50 {
        let mut rng = rand::thread_rng();
        let mut bag = full_bag();
        let mut seen: Vec<Piece> = Vec::new();
        for k in 0..7 {
            let before = bag.clone();
            let piece = randomize_piece(&mut bag, &mut rng);
            assert!(before.contains(&piece));
            assert!(!bag.contains(&piece));
            assert_eq!(bag.len(), 6 - k);
            assert!(!seen.contains(&piece));
            seen.push(piece);
        }
        for piece in ALL {
            assert_eq!(seen.iter().filter(|p| **p == piece).count(), 1);
        }
        assert!(bag.is_empty());
    }
}

#[test]
fn a_draw_from_a_bag_that_is_used_up_starts_a_new_round() {
    let mut rng = rand::thread_rng();
    let mut bag: Vec<Piece> = Vec::new();
    let piece = randomize_piece(&mut bag, &mut rng);
    assert!(ALL.contains(&piece));
    assert_eq!(bag.len(), 6);
    assert!(!bag.contains(&piece));
    let rest: Vec<Piece> = ALL.iter().copied().filter(|p| *p != piece).collect();
    assert_eq!(bag, rest);
}

#[test]
fn a_draw_from_a_bag_of_one_gives_that_piece() {
    let mut rng = rand::thread_rng();
    let mut bag = vec![Piece::J];
    assert_eq!(randomize_piece(&mut bag, &mut rng), Piece::J);
    assert!(bag.is_empty());
}

#[test]
fn draws_are_not_always_the_first_piece() {
    let mut rng = rand::thread_rng();
    let mut other = false;
    for _ in 0..200 {
        let mut bag = full_bag();
        if randomize_piece(&mut bag, &mut rng) != Piece::I {
            other = true;
        }
    }
    assert!(other);
}
