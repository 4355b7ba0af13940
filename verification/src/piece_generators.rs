//! The piece supply: a bag of the seven standard pieces, shuffled anew each
//! time it is used up.

use vstd::prelude::*;
use crate::piece::PieceType;
use crate::rng_manager::{shuffle_seeded, shuffled, LAST_INDEX};

verus! {

/// The piece type a bag entry stands for. Entries of seven and more do not
/// occur in a bag; they stand for `Z`.
pub open spec fn piece_of_code(code: u8) -> PieceType {
    if code == 0 {
        PieceType::I
    } else if code == 1 {
        PieceType::O
    } else if code == 2 {
        PieceType::T
    } else if code == 3 {
        PieceType::L
    } else if code == 4 {
        PieceType::J
    } else if code == 5 {
        PieceType::S
    } else {
        PieceType::Z
    }
}

/// The bag entry that stands for a standard piece type.
pub open spec fn code_of_piece(t: PieceType) -> u8 {
    match t {
        PieceType::I => 0,
        PieceType::O => 1,
        PieceType::T => 2,
        PieceType::L => 3,
        PieceType::J => 4,
        PieceType::S => 5,
        _ => 6,
    }
}

/// A bag before it is shuffled.
pub open spec fn sorted_bag() -> Seq<u8> {
    seq![0u8, 1u8, 2u8, 3u8, 4u8, 5u8, 6u8]
}

/// Whether `order` is a bag: seven entries among which each of the seven
/// codes occurs.
pub open spec fn is_bag_order(order: Seq<u8>) -> bool {
    &&& order.len() == 7
    &&& forall|code: u8| code < 7 ==> #[trigger] order.contains(code)
}

/// Whether `pieces` is one of each standard piece: seven pieces among which
/// every type but `Pixel` occurs.
pub open spec fn is_bag(pieces: Seq<PieceType>) -> bool {
    &&& pieces.len() == 7
    &&& forall|t: PieceType| t != PieceType::Pixel ==> #[trigger] pieces.contains(t)
}

/// The stream that bag number `bag` is shuffled with: the even streams, the
/// last of them for every bag from `LAST_INDEX` on.
pub open spec fn bag_stream(bag: nat) -> u64 {
    if bag >= LAST_INDEX {
        (2 * LAST_INDEX) as u64
    } else {
        (2 * bag) as u64
    }
}

/// The order of bag number `bag` under `seed`.
pub open spec fn bag_order(seed: u64, bag: nat) -> Seq<u8> {
    shuffled(seed, bag_stream(bag), sorted_bag())
}

/// The piece that draw number `n` yields under `seed`, counting from 0.
pub open spec fn piece_at(seed: u64, n: nat) -> PieceType {
    piece_of_code(bag_order(seed, n / 7)[(n % 7) as int])
}

/// The pieces of bag number `bag` under `seed`, in the order they are drawn.
pub open spec fn bag_at(seed: u64, bag: nat) -> Seq<PieceType> {
    Seq::new(7, |i: int| piece_at(seed, (7 * bag + i) as nat))
}

/// A bag order holds every one of its entries once, and only the seven
/// codes.
pub proof fn lemma_bag_order_entries(order: Seq<u8>)
    requires
        is_bag_order(order),
    ensures
        forall|i: int| 0 <= i < 7 ==> #[trigger] order[i] < 7,
        forall|i: int, j: int| 0 <= i < j < 7 ==> order[i] != order[j],
{
    let at = |code: u8| choose|i: int| 0 <= i < 7 && order[i] == code;
    assert forall|code: u8| code < 7 implies 0 <= #[trigger] at(code) < 7 && order[at(code)]
        == code by {
        assert(order.contains(code));
    }
    let at0 = at(0);
    let at1 = at(1);
    let at2 = at(2);
    let at3 = at(3);
    let at4 = at(4);
    let at5 = at(5);
    let at6 = at(6);
    assert(order[at0] == 0 && order[at1] == 1 && order[at2] == 2 && order[at3] == 3 && order[at4] == 4
        && order[at5] == 5 && order[at6] == 6);
    assert(0 == at0 || 0 == at1 || 0 == at2 || 0 == at3 || 0 == at4 || 0 == at5 || 0 == at6);
    assert(1 == at0 || 1 == at1 || 1 == at2 || 1 == at3 || 1 == at4 || 1 == at5 || 1 == at6);
    assert(2 == at0 || 2 == at1 || 2 == at2 || 2 == at3 || 2 == at4 || 2 == at5 || 2 == at6);
    assert(3 == at0 || 3 == at1 || 3 == at2 || 3 == at3 || 3 == at4 || 3 == at5 || 3 == at6);
    assert(4 == at0 || 4 == at1 || 4 == at2 || 4 == at3 || 4 == at4 || 4 == at5 || 4 == at6);
    assert(5 == at0 || 5 == at1 || 5 == at2 || 5 == at3 || 5 == at4 || 5 == at5 || 5 == at6);
    assert(6 == at0 || 6 == at1 || 6 == at2 || 6 == at3 || 6 == at4 || 6 == at5 || 6 == at6);
}

/// The pieces that a bag order stands for are one of each standard piece.
pub proof fn lemma_bag_of_order(order: Seq<u8>, pieces: Seq<PieceType>)
    requires
        is_bag_order(order),
        pieces.len() == 7,
        forall|i: int| 0 <= i < 7 ==> #[trigger] pieces[i] == piece_of_code(order[i]),
    ensures
        is_bag(pieces),
        forall|i: int| 0 <= i < 7 ==> #[trigger] pieces[i] != PieceType::Pixel,
{
    assert forall|t: PieceType| t != PieceType::Pixel implies #[trigger] pieces.contains(t) by {
        let code = code_of_piece(t);
        assert(order.contains(code));
        let i = choose|i: int| 0 <= i < order.len() && order[i] == code;
        assert(pieces[i] == t);
    }
}

/// What comes out of a shuffle of the sorted bag is a bag order.
proof fn lemma_shuffle_keeps_bag(out: Seq<u8>)
    requires
        out.to_multiset() == sorted_bag().to_multiset(),
    ensures
        is_bag_order(out),
{
    broadcast use vstd::seq_lib::group_to_multiset_ensures;

    assert(out.len() == out.to_multiset().len());
    assert(sorted_bag().len() == sorted_bag().to_multiset().len());
    assert forall|code: u8| code < 7 implies #[trigger] out.contains(code) by {
        assert(sorted_bag()[code as int] == code);
        assert(sorted_bag().contains(code));
        assert(sorted_bag().to_multiset().count(code) > 0);
    }
}

/// Generators that were made with one seed and have drawn equally often
/// draw the same pieces from then on, however far one looks ahead.
pub proof fn lemma_same_seed_same_pieces(a: &PieceGeneratorBag7, b: &PieceGeneratorBag7, k: nat)
    requires
        a.spec_seed() == b.spec_seed(),
        a.spec_drawn() == b.spec_drawn(),
    ensures
        piece_at(a.spec_seed(), a.spec_drawn() + k) == piece_at(b.spec_seed(), b.spec_drawn() + k),
{
}

/// The piece type a bag entry stands for.
pub fn piece_from_code(code: u8) -> (t: PieceType)
    ensures
        t == piece_of_code(code),
{
    if code == 0 {
        PieceType::I
    } else if code == 1 {
        PieceType::O
    } else if code == 2 {
        PieceType::T
    } else if code == 3 {
        PieceType::L
    } else if code == 4 {
        PieceType::J
    } else if code == 5 {
        PieceType::S
    } else {
        PieceType::Z
    }
}

/// The seeded bag randomizer.
pub struct PieceGeneratorBag7 {
    seed: u64,
    bag_index: u64,
    pos: usize,
    bag: Vec<u8>,
    drawn: Ghost<nat>,
}

impl PieceGeneratorBag7 {
    /// The invariant: the generator holds the bag that its next draw comes
    /// from, which is a bag order, and knows its place in it.
    pub closed spec fn wf(&self) -> bool {
        &&& self.pos == self.drawn@ % 7
        &&& self.bag_index == if self.drawn@ / 7 >= LAST_INDEX {
            LAST_INDEX as nat
        } else {
            self.drawn@ / 7
        }
        &&& self.bag@ == bag_order(self.seed, self.drawn@ / 7)
        &&& is_bag_order(self.bag@)
    }

    pub closed spec fn spec_seed(&self) -> u64 {
        self.seed
    }

    /// How many pieces were drawn.
    pub closed spec fn spec_drawn(&self) -> nat {
        self.drawn@
    }

    /// The bag that the next draw comes from is one of each standard piece.
    pub proof fn lemma_current_bag(&self)
        requires
            self.wf(),
        ensures
            is_bag(bag_at(self.spec_seed(), self.spec_drawn() / 7)),
            piece_at(self.spec_seed(), self.spec_drawn()) != PieceType::Pixel,
    {
        let seed = self.seed;
        let bag = self.drawn@ / 7;
        let pieces = bag_at(seed, bag);
        assert forall|i: int| 0 <= i < 7 implies #[trigger] pieces[i] == piece_of_code(
            self.bag@[i],
        ) by {
            assert((7 * bag + i) / 7 == bag);
            assert((7 * bag + i) % 7 == i);
        }
        lemma_bag_of_order(self.bag@, pieces);
        let i = (self.drawn@ % 7) as int;
        assert((7 * bag + i) as nat == self.drawn@);
        assert(pieces[i] == piece_at(seed, self.drawn@));
    }

    fn fill(seed: u64, bag_index: u64, Ghost(bag): Ghost<nat>) -> (order: Vec<u8>)
        requires
            bag_index == if bag >= LAST_INDEX {
                LAST_INDEX as nat
            } else {
                bag
            },
        ensures
            order@ == bag_order(seed, bag),
            is_bag_order(order@),
    {
        let sorted: Vec<u8> = vec![0u8, 1u8, 2u8, 3u8, 4u8, 5u8, 6u8];
        assert(sorted@ =~= sorted_bag());
        let order = shuffle_seeded(seed, 2 * bag_index, sorted);
        proof {
            lemma_shuffle_keeps_bag(order@);
        }
        order
    }

    /// A generator that has drawn nothing yet.
    pub fn new(seed: u64) -> (generator: PieceGeneratorBag7)
        ensures
            generator.wf(),
            generator.spec_seed() == seed,
            generator.spec_drawn() == 0,
    {
        let bag = Self::fill(seed, 0, Ghost(0));
        PieceGeneratorBag7 { seed, bag_index: 0, pos: 0, bag, drawn: Ghost(0) }
    }

    pub fn get_seed(&self) -> (seed: u64)
        ensures
            seed == self.spec_seed(),
    {
        self.seed
    }

    /// Starts over under the same seed.
    pub fn reset(&mut self)
        ensures
            final(self).wf(),
            final(self).spec_seed() == old(self).spec_seed(),
            final(self).spec_drawn() == 0,
    {
        self.bag = Self::fill(self.seed, 0, Ghost(0));
        self.bag_index = 0;
        self.pos = 0;
        self.drawn = Ghost(0);
    }

    /// Draws the next piece.
    ///
    /// The piece is that of the draw's number under the seed, so generators
    /// made with one seed draw the same pieces. It is a standard piece, and
    /// the bag it comes from, draws `7k` to `7k + 6` for some `k`, is one of
    /// each standard piece.
    pub fn next(&mut self) -> (piece: PieceType)
        requires
            old(self).wf(),
        ensures
            final(self).wf(),
            final(self).spec_seed() == old(self).spec_seed(),
            final(self).spec_drawn() == old(self).spec_drawn() + 1,
            piece == piece_at(old(self).spec_seed(), old(self).spec_drawn()),
            piece != PieceType::Pixel,
            is_bag(bag_at(old(self).spec_seed(), old(self).spec_drawn() / 7)),
    {
        proof {
            self.lemma_current_bag();
        }
        let piece = piece_from_code(self.bag[self.pos]);
        let ghost before = self.drawn@;
        self.drawn = Ghost((before + 1) as nat);
        if self.pos == 6 {
            assert((before + 1) / 7 == before / 7 + 1);
            assert((before + 1) % 7 == 0);
            if self.bag_index < LAST_INDEX {
                self.bag_index += 1;
            }
            self.bag = Self::fill(self.seed, self.bag_index, Ghost((before + 1) / 7));
            self.pos = 0;
        } else {
            assert((before + 1) / 7 == before / 7);
            assert((before + 1) % 7 == before % 7 + 1);
            self.pos += 1;
        }
        piece
    }
}

} // verus!
