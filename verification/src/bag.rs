//! The bag that deals the pieces: all seven in random order, then all seven again.

use vstd::prelude::*;
use rand::seq::SliceRandom;
use crate::piece::{Piece, all_pieces};

verus! {

/// `rand::rngs::ThreadRng`: the thread's random number generator.
#[verifier::external_type_specification]
#[verifier::external_body]
pub struct ExThreadRng(rand::rngs::ThreadRng);

/// `rand::thread_rng`: a handle to the thread's random number generator.
/// Nothing is claimed of it.
#[verifier::external_body]
pub(crate) fn new_rng() -> (rng: rand::rngs::ThreadRng) {
    rand::thread_rng()
}

/// `SliceRandom::choose` on the bag: nothing if the bag is empty, else one of
/// the pieces in it. Which one is left open.
#[verifier::external_body]
pub(crate) fn choose_piece(bag: &Vec<Piece>, rng: &mut rand::rngs::ThreadRng) -> (res: Option<Piece>)
    ensures
        res.is_none() <==> bag@.len() == 0,
        res.is_some() ==> bag@.contains(res.unwrap()),
{
    bag.choose(rng).copied()
}

/// No piece occurs twice.
pub open spec fn distinct(s: Seq<Piece>) -> bool {
    forall|i: int, j: int| 0 <= i < j < s.len() ==> s[i] != s[j]
}

/// The sequence with every occurrence of `p` taken out.
pub open spec fn without(s: Seq<Piece>, p: Piece) -> Seq<Piece>
    decreases s.len(),
{
    if s.len() == 0 {
        s
    } else if s.last() == p {
        without(s.drop_last(), p)
    } else {
        without(s.drop_last(), p).push(s.last())
    }
}

/// What the next piece is drawn from: the bag, or all seven pieces once the
/// bag is used up.
pub open spec fn supply(bag: Seq<Piece>) -> Seq<Piece> {
    if bag.len() == 0 {
        all_pieces()
    } else {
        bag
    }
}

/// The bag after `p` was drawn.
pub open spec fn after_draw(bag: Seq<Piece>, p: Piece) -> Seq<Piece> {
    without(supply(bag), p)
}

/// A bag with all seven pieces.
pub fn full_bag() -> (bag: Vec<Piece>)
    ensures
        bag@ == all_pieces(),
{
    let bag = vec![Piece::I, Piece::J, Piece::L, Piece::O, Piece::S, Piece::Z, Piece::T];
    bag
}

/// Takes every occurrence of `piece` out of the bag and keeps the order of the rest.
pub fn remove_piece(bag: &mut Vec<Piece>, piece: Piece)
    ensures
        final(bag)@ == without(old(bag)@, piece),
{
    let mut rest: Vec<Piece> = Vec::new();
    let mut i: usize = 0;
    while i < bag.len()
        invariant
            i <= bag@.len(),
            bag@ == old(bag)@,
            rest@ == without(bag@.take(i as int), piece),
        decreases bag@.len() - i,
    {
        proof {
            assert(bag@.take(i as int + 1).drop_last() =~= bag@.take(i as int));
        }
        if bag[i] != piece {
            rest.push(bag[i]);
        }
        i += 1;
    }
    proof {
        assert(bag@.take(bag@.len() as int) =~= bag@);
    }
    *bag = rest;
}

/// Draws the given piece: refills a bag that is used up, then takes the piece out.
pub fn take_piece(bag: &mut Vec<Piece>, piece: Piece)
    ensures
        final(bag)@ == after_draw(old(bag)@, piece),
{
    if bag.len() == 0 {
        *bag = full_bag();
    }
    remove_piece(bag, piece);
}

/// Draws a piece at random from the bag, refilling it first if it is used
/// up. The piece is one that the supply held, and it leaves the bag.
pub fn randomize_piece(bag: &mut Vec<Piece>, rng: &mut rand::rngs::ThreadRng) -> (piece: Piece)
    ensures
        supply(old(bag)@).contains(piece),
        final(bag)@ == after_draw(old(bag)@, piece),
{
    match choose_piece(bag, rng) {
        Some(piece) => {
            take_piece(bag, piece);
            piece
        },
        None => {
            *bag = full_bag();
            match choose_piece(bag, rng) {
                Some(piece) => {
                    take_piece(bag, piece);
                    piece
                },
                None => {
                    proof {
                        assert(false);
                    }
                    Piece::I
                },
            }
        },
    }
}

/// The pieces left after a draw are those of the supply other than the one drawn.
pub proof fn lemma_without_contains(s: Seq<Piece>, p: Piece, q: Piece)
    ensures
        without(s, p).contains(q) <==> s.contains(q) && q != p,
    decreases s.len(),
{
    if s.len() > 0 {
        let d = s.drop_last();
        lemma_without_contains(d, p, q);
        if s.contains(q) {
            let i = choose|i: int| 0 <= i < s.len() && s[i] == q;
            if i < s.len() - 1 {
                assert(d[i] == q);
            }
        }
        if s.last() != p {
            let w = without(d, p);
            let v = w.push(s.last());
            if v.contains(q) {
                let i = choose|i: int| 0 <= i < v.len() && v[i] == q;
                if i < w.len() {
                    assert(w[i] == q);
                } else {
                    assert(s[s.len() - 1] == q);
                }
            }
            if w.contains(q) {
                let i = choose|i: int| 0 <= i < w.len() && w[i] == q;
                assert(v[i] == q);
            }
            if s.last() == q {
                assert(v[w.len() as int] == q);
            }
        }
    }
}

/// Drawing from a bag without repeats leaves a bag without repeats, shorter
/// by one if the piece was in it and unchanged if not.
pub proof fn lemma_without_distinct(s: Seq<Piece>, p: Piece)
    requires
        distinct(s),
    ensures
        distinct(without(s, p)),
        s.contains(p) ==> without(s, p).len() == s.len() - 1,
        !s.contains(p) ==> without(s, p) == s,
    decreases s.len(),
{
    if s.len() > 0 {
        let d = s.drop_last();
        lemma_without_distinct(d, p);
        lemma_without_contains(d, p, s.last());
        if s.contains(p) && s.last() != p {
            let i = choose|i: int| 0 <= i < s.len() && s[i] == p;
            assert(d[i] == p);
        }
        if s.last() == p {
            assert(s[s.len() - 1] == p);
        } else if !s.contains(p) {
            assert(without(d, p).push(s.last()) =~= s);
        }
    }
}

/// The bag after the first `k` of the given draws, starting from a full bag.
pub open spec fn bag_after(draws: Seq<Piece>, k: int) -> Seq<Piece>
    decreases k,
{
    if k <= 0 {
        all_pieces()
    } else {
        after_draw(bag_after(draws, k - 1), draws[k - 1])
    }
}

/// Each of the draws is one that the bag allowed when it was made.
pub open spec fn dealt(draws: Seq<Piece>) -> bool {
    forall|k: int| 0 <= k < draws.len() ==> supply(#[trigger] bag_after(draws, k)).contains(draws[k])
}

/// Every piece is among the seven.
pub proof fn lemma_all_pieces(p: Piece)
    ensures
        all_pieces().contains(p),
        distinct(all_pieces()),
        all_pieces().len() == 7,
{
    let k: int = match p {
        Piece::I => 0,
        Piece::J => 1,
        Piece::L => 2,
        Piece::O => 3,
        Piece::S => 4,
        Piece::Z => 5,
        Piece::T => 6,
    };
}

proof fn lemma_bag_after(draws: Seq<Piece>, k: int)
    requires
        draws.len() == 7,
        dealt(draws),
        0 <= k <= 7,
    ensures
        distinct(bag_after(draws, k)),
        bag_after(draws, k).len() == 7 - k,
        forall|q: Piece|
            bag_after(draws, k).contains(q) <==> (forall|i: int| 0 <= i < k ==> draws[i] != q),
    decreases k,
{
    if k == 0 {
        assert forall|q: Piece| bag_after(draws, 0).contains(q) by {
            lemma_all_pieces(q);
        }
        lemma_all_pieces(Piece::I);
    } else {
        lemma_bag_after(draws, k - 1);
        let b = bag_after(draws, k - 1);
        let p = draws[k - 1];
        lemma_without_distinct(b, p);
        assert forall|q: Piece|
            bag_after(draws, k).contains(q) <==> (forall|i: int| 0 <= i < k ==> draws[i] != q) by {
            lemma_without_contains(b, p, q);
        }
    }
}

/// Seven draws in a row, starting from a full bag, deal every piece, none of
/// them twice, and use the bag up.
pub proof fn lemma_seven_draws(draws: Seq<Piece>)
    requires
        draws.len() == 7,
        dealt(draws),
    ensures
        distinct(draws),
        forall|p: Piece| draws.contains(p),
        bag_after(draws, 7).len() == 0,
{
    lemma_bag_after(draws, 7);
    assert forall|i: int, j: int| 0 <= i < j < 7 implies draws[i] != draws[j] by {
        lemma_bag_after(draws, j);
    }
    assert forall|p: Piece| draws.contains(p) by {
        if !draws.contains(p) {
            assert(bag_after(draws, 7).contains(p));
        }
    }
}

} // verus!
