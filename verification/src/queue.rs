use vstd::multiset::Multiset;
use vstd::prelude::*;

use crate::piece::Tetromino;
use crate::rng::shuffle_kinds;

verus! {

/// The multiset holding each of the seven kinds exactly once.
pub open spec fn full_bag() -> Multiset<Tetromino> {
    Multiset::empty()
        .insert(Tetromino::I)
        .insert(Tetromino::J)
        .insert(Tetromino::L)
        .insert(Tetromino::O)
        .insert(Tetromino::S)
        .insert(Tetromino::T)
        .insert(Tetromino::Z)
}

/// A sequence of seven pieces containing each kind exactly once.
pub open spec fn is_full_bag(s: Seq<Tetromino>) -> bool {
    s.len() == 7 && s.to_multiset() == full_bag()
}

/// The queue contents seen from the back split into whole shuffled bags;
/// only the front partial bag (of length `s.len() % 7`) is unconstrained.
pub open spec fn bag_partitioned(s: Seq<Tetromino>) -> bool {
    forall|i: int|
        0 <= i && 7 * (i + 1) <= s.len() ==> is_full_bag(
            #[trigger] s.subrange(s.len() - 7 * (i + 1), s.len() - 7 * i),
        )
}

/// Every kind counts exactly once in the full bag.
pub proof fn lemma_full_bag_counts()
    ensures
        forall|k: Tetromino| #[trigger] full_bag().count(k) == 1,
{
    assert forall|k: Tetromino| #[trigger] full_bag().count(k) == 1 by {
        match k {
            Tetromino::I => {},
            Tetromino::J => {},
            Tetromino::L => {},
            Tetromino::O => {},
            Tetromino::S => {},
            Tetromino::T => {},
            Tetromino::Z => {},
        }
    }
}

/// The catalog order of the seven kinds holds each kind once.
proof fn lemma_all_kinds_multiset()
    ensures
        Tetromino::all_kinds().to_multiset() == full_bag(),
{
    broadcast use vstd::seq_lib::group_to_multiset_ensures;

    let e = Seq::<Tetromino>::empty();
    assert(e.to_multiset() =~= Multiset::empty()) by {
        assert forall|k: Tetromino| #[trigger] e.to_multiset().count(k) == 0 by {
            assert(!e.contains(k));
        }
    }
    let s1 = e.push(Tetromino::I);
    let s2 = s1.push(Tetromino::J);
    let s3 = s2.push(Tetromino::L);
    let s4 = s3.push(Tetromino::O);
    let s5 = s4.push(Tetromino::S);
    let s6 = s5.push(Tetromino::T);
    let s7 = s6.push(Tetromino::Z);
    assert(Tetromino::all_kinds() =~= s7);
    assert(s7.to_multiset() =~= full_bag());
}

/// Removing the front element keeps the whole bags at the back intact.
proof fn lemma_partition_drop(s: Seq<Tetromino>)
    requires
        bag_partitioned(s),
        s.len() >= 1,
    ensures
        bag_partitioned(s.remove(0)),
{
    let t = s.remove(0);
    assert forall|i: int| 0 <= i && 7 * (i + 1) <= t.len() implies is_full_bag(
        #[trigger] t.subrange(t.len() - 7 * (i + 1), t.len() - 7 * i),
    ) by {
        assert(t.subrange(t.len() - 7 * (i + 1), t.len() - 7 * i) =~= s.subrange(
            s.len() - 7 * (i + 1),
            s.len() - 7 * i,
        ));
        assert(is_full_bag(s.subrange(s.len() - 7 * (i + 1), s.len() - 7 * i)));
    }
}

/// Appending a full bag keeps the back of the queue split into whole bags.
proof fn lemma_partition_append(s: Seq<Tetromino>, bag: Seq<Tetromino>)
    requires
        bag_partitioned(s),
        is_full_bag(bag),
    ensures
        bag_partitioned(s + bag),
{
    let t = s + bag;
    assert forall|i: int| 0 <= i && 7 * (i + 1) <= t.len() implies is_full_bag(
        #[trigger] t.subrange(t.len() - 7 * (i + 1), t.len() - 7 * i),
    ) by {
        if i == 0 {
            assert(t.subrange(t.len() - 7, t.len() - 0) =~= bag);
        } else {
            assert(is_full_bag(s.subrange(s.len() - 7 * ((i - 1) + 1), s.len() - 7 * (i - 1))));
            assert(t.subrange(t.len() - 7 * (i + 1), t.len() - 7 * i) =~= s.subrange(
                s.len() - 7 * ((i - 1) + 1),
                s.len() - 7 * (i - 1),
            ));
        }
    }
}

/// Queue fairness: in a well-formed queue standing at a bag boundary, the
/// next seven pieces hold each of the seven kinds exactly once.
pub proof fn lemma_bag_window(s: Seq<Tetromino>)
    requires
        bag_partitioned(s),
        s.len() % 7 == 0,
        s.len() >= 7,
    ensures
        forall|k: Tetromino| #[trigger] s.subrange(0, 7).to_multiset().count(k) == 1,
{
    let m = s.len() / 7;
    assert(7 * m == s.len());
    assert(s.subrange(s.len() - 7 * ((m - 1) + 1), s.len() - 7 * (m - 1)) =~= s.subrange(0, 7));
    assert(is_full_bag(s.subrange(s.len() - 7 * ((m - 1) + 1), s.len() - 7 * (m - 1))));
    lemma_full_bag_counts();
}

/// How `pop_piece` relates two queue states: `p` left the front of `q1`,
/// after a refill by one full bag when `q1` was empty.
pub open spec fn popped(q1: Queue, q2: Queue, p: Tetromino) -> bool {
    ||| (q1.pieces().len() > 0 && p == q1.pieces()[0] && q2.pieces() == q1.pieces().remove(0))
    ||| (q1.pieces().len() == 0 && exists|bag: Seq<Tetromino>|
        is_full_bag(bag) && p == bag[0] && q2.pieces() == bag.remove(0))
}

/// Infinite bag-randomized source of upcoming pieces: whenever the
/// lookahead runs dry, a freshly shuffled bag of all seven kinds is
/// appended.
pub struct Queue {
    queue: Vec<Tetromino>,
    rng: rand::rngs::SmallRng,
}

impl Queue {
    /// The upcoming pieces, front first.
    pub closed spec fn pieces(self) -> Seq<Tetromino> {
        self.queue@
    }

    /// The lookahead is a front partial bag followed by whole shuffled bags.
    pub closed spec fn wf(self) -> bool {
        bag_partitioned(self.queue@)
    }

    pub fn new(rng: rand::rngs::SmallRng) -> (r: Queue)
        ensures
            r.wf(),
            r.pieces().len() == 0,
    {
        Queue { queue: Vec::new(), rng }
    }

    /// Appends a freshly shuffled full bag to the lookahead.
    fn request_more_pieces(&mut self)
        requires
            old(self).wf(),
        ensures
            final(self).wf(),
            exists|bag: Seq<Tetromino>|
                is_full_bag(bag) && final(self).pieces() == old(self).pieces() + bag,
    {
        let mut bag: Vec<Tetromino> = Vec::new();
        bag.push(Tetromino::I);
        bag.push(Tetromino::J);
        bag.push(Tetromino::L);
        bag.push(Tetromino::O);
        bag.push(Tetromino::S);
        bag.push(Tetromino::T);
        bag.push(Tetromino::Z);
        proof {
            assert(bag@ =~= Tetromino::all_kinds());
            lemma_all_kinds_multiset();
        }
        shuffle_kinds(&mut self.rng, &mut bag);
        proof {
            lemma_partition_append(self.queue@, bag@);
        }
        let ghost shuffled = bag@;
        self.queue.append(&mut bag);
        proof {
            assert(is_full_bag(shuffled));
            assert(self.pieces() == old(self).pieces() + shuffled);
        }
    }

    /// Returns and consumes the next kind, refilling from a fresh bag when
    /// the lookahead is empty.
    pub fn pop_piece(&mut self) -> (r: Tetromino)
        requires
            old(self).wf(),
        ensures
            final(self).wf(),
            old(self).pieces().len() > 0 ==> r == old(self).pieces()[0] && final(self).pieces()
                == old(self).pieces().remove(0),
            old(self).pieces().len() == 0 ==> exists|bag: Seq<Tetromino>|
                is_full_bag(bag) && r == bag[0] && final(self).pieces() == bag.remove(0),
    {
        if self.queue.len() == 0 {
            self.request_more_pieces();
        }
        let ghost pre = self.queue@;
        let r = self.queue.remove(0);
        proof {
            lemma_partition_drop(pre);
        }
        r
    }

    /// Peeks `i` positions ahead without consuming, refilling from fresh
    /// bags as needed.
    pub fn nth_next_piece(&mut self, i: usize) -> (r: Tetromino)
        requires
            old(self).wf(),
        ensures
            final(self).wf(),
            final(self).pieces().len() > i,
            old(self).pieces().is_prefix_of(final(self).pieces()),
            (final(self).pieces().len() - old(self).pieces().len()) % 7 == 0,
            old(self).pieces().len() > i ==> final(self).pieces() == old(self).pieces(),
            r == final(self).pieces()[i as int],
    {
        while self.queue.len() <= i
            invariant
                self.wf(),
                old(self).pieces().is_prefix_of(self.pieces()),
                (self.pieces().len() - old(self).pieces().len()) % 7 == 0,
                old(self).pieces().len() > i ==> self.pieces() == old(self).pieces(),
            decreases i + 7 - self.queue.len(),
        {
            self.request_more_pieces();
        }
        self.queue[i]
    }

    /// The next `n` upcoming kinds, front first, without consuming any.
    pub fn next_pieces(&mut self, n: usize) -> (r: Vec<Tetromino>)
        requires
            old(self).wf(),
        ensures
            final(self).wf(),
            r@.len() == n,
            old(self).pieces().is_prefix_of(final(self).pieces()),
            final(self).pieces().len() >= n,
            forall|j: int| 0 <= j < n ==> #[trigger] r@[j] == final(self).pieces()[j],
    {
        let mut r: Vec<Tetromino> = Vec::new();
        let mut j: usize = 0;
        while j < n
            invariant
                self.wf(),
                j <= n,
                r@.len() == j,
                old(self).pieces().is_prefix_of(self.pieces()),
                j > 0 ==> self.pieces().len() >= j,
                forall|k: int| 0 <= k < j ==> #[trigger] r@[k] == self.pieces()[k],
            decreases n - j,
        {
            let p = self.nth_next_piece(j);
            r.push(p);
            j = j + 1;
        }
        r
    }
}

} // verus!
