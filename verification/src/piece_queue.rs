//! The queue of upcoming pieces.

use vstd::prelude::*;
use crate::piece::PieceType;
use crate::piece_generators::{piece_at, PieceGeneratorBag7};

verus! {

/// The `len` pieces that follow the first `taken` pieces under `seed`.
pub open spec fn upcoming(seed: u64, taken: nat, len: nat) -> Seq<PieceType> {
    Seq::new(len, |i: int| piece_at(seed, (taken + i) as nat))
}

/// The upcoming pieces, first in first out. The queue keeps its length:
/// for every piece taken from its front the generator adds one at its back.
pub struct PieceQueue {
    queue: Vec<PieceType>,
    generator: PieceGeneratorBag7,
}

impl View for PieceQueue {
    type V = Seq<PieceType>;

    closed spec fn view(&self) -> Seq<PieceType> {
        self.queue@
    }
}

impl PieceQueue {
    pub closed spec fn spec_seed(&self) -> u64 {
        self.generator.spec_seed()
    }

    /// How many pieces were taken from the queue.
    pub closed spec fn spec_taken(&self) -> nat {
        (self.generator.spec_drawn() - self.queue@.len()) as nat
    }

    /// The invariant: the queue holds the pieces that follow those taken.
    pub closed spec fn wf(&self) -> bool {
        &&& self.generator.wf()
        &&& self.queue@.len() <= self.generator.spec_drawn()
        &&& self.queue@ == upcoming(self.spec_seed(), self.spec_taken(), self.queue@.len())
    }

    /// What a well-formed queue holds.
    pub proof fn lemma_contents(&self)
        requires
            self.wf(),
        ensures
            self@ == upcoming(self.spec_seed(), self.spec_taken(), self@.len()),
    {
    }

    /// A queue of `size` pieces from which none was taken.
    pub fn new(seed: u64, size: usize) -> (queue: PieceQueue)
        ensures
            queue.wf(),
            queue.spec_seed() == seed,
            queue.spec_taken() == 0,
            queue@.len() == size,
    {
        let mut generator = PieceGeneratorBag7::new(seed);
        let mut queue: Vec<PieceType> = Vec::new();
        let mut i: usize = 0;
        while i < size
            invariant
                i <= size,
                generator.wf(),
                generator.spec_seed() == seed,
                generator.spec_drawn() == i,
                queue@.len() == i,
                forall|j: int| 0 <= j < i ==> queue@[j] == piece_at(seed, j as nat),
            decreases size - i,
        {
            let piece = generator.next();
            queue.push(piece);
            i += 1;
        }
        assert(queue@ =~= upcoming(seed, 0, size as nat));
        PieceQueue { queue, generator }
    }

    /// Refills the queue from the start of the sequence of its seed.
    pub fn reset(&mut self)
        requires
            old(self).wf(),
        ensures
            final(self).wf(),
            final(self).spec_seed() == old(self).spec_seed(),
            final(self).spec_taken() == 0,
            final(self)@.len() == old(self)@.len(),
    {
        let fresh = PieceQueue::new(self.generator.get_seed(), self.queue.len());
        self.queue = fresh.queue;
        self.generator = fresh.generator;
    }

    /// Takes the piece at the front and lets the generator add one at the
    /// back.
    pub fn next(&mut self) -> (piece: PieceType)
        requires
            old(self).wf(),
        ensures
            final(self).wf(),
            final(self).spec_seed() == old(self).spec_seed(),
            final(self).spec_taken() == old(self).spec_taken() + 1,
            final(self)@.len() == old(self)@.len(),
            piece == piece_at(old(self).spec_seed(), old(self).spec_taken()),
            piece != PieceType::Pixel,
    {
        let drawn = self.generator.next();
        if self.queue.len() == 0 {
            assert(self.queue@ =~= upcoming(self.spec_seed(), self.spec_taken(), 0));
            drawn
        } else {
            let ghost before = self.queue@;
            let ghost taken = old(self).spec_taken();
            let piece = self.queue.remove(0);
            self.queue.push(drawn);
            proof {
                assert(piece == before[0]);
                assert forall|j: int| 0 <= j < before.len() implies self.queue@[j] == piece_at(
                    self.spec_seed(),
                    (taken + 1 + j) as nat,
                ) by {
                    if j < before.len() - 1 {
                        assert(self.queue@[j] == before[j + 1]);
                    }
                }
                assert(self.queue@ =~= upcoming(
                    self.spec_seed(),
                    taken + 1,
                    self.queue@.len(),
                ));
                old(self).lemma_front_is_standard();
            }
            piece
        }
    }

    /// The piece at the front of a queue is a standard piece.
    proof fn lemma_front_is_standard(&self)
        requires
            self.wf(),
            self.queue@.len() > 0,
        ensures
            self.queue@[0] != PieceType::Pixel,
    {
        assert(self.queue@[0] == piece_at(self.spec_seed(), self.spec_taken()));
    }

    /// The upcoming pieces, the next one first.
    pub fn get_queue(&self) -> (pieces: &Vec<PieceType>)
        ensures
            pieces@ == self@,
    {
        &self.queue
    }
}

} // verus!
