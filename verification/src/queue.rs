//! The queue of pending messages: the message of highest priority leaves first,
//! and among messages of one priority the one that was queued first.

use crate::priority::Prioritized;
use vstd::prelude::*;

verus! {

/// A queued message with the sequence number it was given on arrival.
pub struct Entry<M> {
    pub seq: u64,
    pub msg: M,
}

/// The rank of the `i`-th entry of `s`.
pub open spec fn rank_at<M: Prioritized>(s: Seq<Entry<M>>, i: int) -> nat {
    s[i].msg.spec_priority().rank()
}

/// Whether the `i`-th entry of `s` is the one that leaves next: no entry ranks
/// higher, and every earlier entry ranks strictly lower.
pub open spec fn is_next<M: Prioritized>(s: Seq<Entry<M>>, i: int) -> bool {
    &&& 0 <= i < s.len()
    &&& forall|j: int| 0 <= j < s.len() ==> rank_at(s, j) <= rank_at(s, i)
    &&& forall|j: int| 0 <= j < i ==> rank_at(s, j) < rank_at(s, i)
}

/// The position of the entry that leaves next.
pub open spec fn next_index<M: Prioritized>(s: Seq<Entry<M>>) -> int {
    choose|i: int| is_next(s, i)
}

/// Whether the sequence numbers of `s` rise strictly and stay below `bound`.
pub open spec fn sequenced<M>(s: Seq<Entry<M>>, bound: nat) -> bool {
    &&& forall|i: int, j: int| 0 <= i < j < s.len() ==> s[i].seq < s[j].seq
    &&& forall|i: int| 0 <= i < s.len() ==> s[i].seq < bound
}

/// At most one entry leaves next.
pub proof fn lemma_next_unique<M: Prioritized>(s: Seq<Entry<M>>, i: int, j: int)
    requires
        is_next(s, i),
        is_next(s, j),
    ensures
        i == j,
{
    if i < j {
        assert(rank_at(s, i) < rank_at(s, j));
    } else if j < i {
        assert(rank_at(s, j) < rank_at(s, i));
    }
}

/// A queue that is not empty has an entry that leaves next.
pub proof fn lemma_next_exists<M: Prioritized>(s: Seq<Entry<M>>)
    requires
        s.len() > 0,
    ensures
        is_next(s, next_index(s)),
    decreases s.len(),
{
    if s.len() == 1 {
        assert(is_next(s, 0));
    } else {
        let t = s.drop_last();
        lemma_next_exists(t);
        let k = next_index(t);
        let last = s.len() - 1;
        assert(forall|j: int| 0 <= j < t.len() ==> rank_at(t, j) == rank_at(s, j));
        if rank_at(s, last) > rank_at(s, k) {
            assert(is_next(s, last));
        } else {
            assert(is_next(s, k));
        }
    }
}

/// The entry at `i` is the one that leaves next as soon as it is shown to be.
pub proof fn lemma_next_is<M: Prioritized>(s: Seq<Entry<M>>, i: int)
    requires
        is_next(s, i),
    ensures
        next_index(s) == i,
{
    lemma_next_unique(s, i, next_index(s));
}

/// Among the entries of highest rank, the one that leaves next carries the
/// smallest sequence number: it has waited longest.
pub proof fn lemma_next_is_oldest<M: Prioritized>(s: Seq<Entry<M>>, bound: nat, j: int)
    requires
        sequenced(s, bound),
        0 <= j < s.len(),
        rank_at(s, j) == rank_at(s, next_index(s)),
    ensures
        s[next_index(s)].seq <= s[j].seq,
{
    lemma_next_exists(s);
}

/// The pending messages of one actor, in the order of their arrival.
pub struct MessageQueue<M> {
    entries: Vec<Entry<M>>,
    next_seq: u64,
}

impl<M> View for MessageQueue<M> {
    type V = Seq<Entry<M>>;

    closed spec fn view(&self) -> Seq<Entry<M>> {
        self.entries@
    }
}

impl<M> MessageQueue<M> {
    /// The sequence number that the next arrival gets.
    pub closed spec fn spec_next_seq(&self) -> nat {
        self.next_seq as nat
    }

    /// What holds of every queue: sequence numbers rise along it and stay below
    /// the next one to be given.
    pub open spec fn wf(&self) -> bool {
        sequenced(self@, self.spec_next_seq())
    }

    /// An empty queue that numbers its arrivals from zero.
    pub fn new() -> (q: Self)
        ensures
            q.wf(),
            q@ == Seq::<Entry<M>>::empty(),
            q.spec_next_seq() == 0,
    {
        MessageQueue { entries: Vec::new(), next_seq: 0 }
    }

    /// The number of pending messages.
    pub fn len(&self) -> (n: usize)
        ensures
            n == self@.len(),
    {
        self.entries.len()
    }

    /// Whether no message is pending.
    pub fn is_empty(&self) -> (b: bool)
        ensures
            b == (self@.len() == 0),
    {
        self.entries.len() == 0
    }

    /// The sequence number that the next arrival gets.
    pub fn next_seq(&self) -> (n: u64)
        ensures
            n == self.spec_next_seq(),
    {
        self.next_seq
    }

    /// Whether every sequence number has been given out, so that nothing more can be queued.
    pub fn is_exhausted(&self) -> (b: bool)
        ensures
            b == (self.spec_next_seq() >= u64::MAX),
    {
        self.next_seq == u64::MAX
    }

    /// Queues `msg` behind everything that is pending and returns its sequence number.
    pub fn push(&mut self, msg: M) -> (seq: u64)
        requires
            old(self).wf(),
            old(self).spec_next_seq() < u64::MAX,
        ensures
            final(self).wf(),
            seq == old(self).spec_next_seq(),
            final(self)@ == old(self)@.push(Entry { seq, msg }),
            final(self).spec_next_seq() == old(self).spec_next_seq() + 1,
    {
        let seq: u64 = self.next_seq;
        self.entries.push(Entry { seq, msg });
        self.next_seq = seq + 1;
        seq
    }

    /// Drops every pending message. Sequence numbers are not reused.
    pub fn clear(&mut self)
        ensures
            final(self).wf(),
            final(self)@ == Seq::<Entry<M>>::empty(),
            final(self).spec_next_seq() == old(self).spec_next_seq(),
    {
        self.entries.clear();
    }
}

impl<M: Prioritized> MessageQueue<M> {
    /// The position of the entry that leaves next, if any is pending.
    fn find_next(&self) -> (r: Option<usize>)
        ensures
            self@.len() == 0 ==> r is None,
            self@.len() > 0 ==> {
                &&& r matches Some(i)
                &&& i == next_index(self@)
                &&& is_next(self@, i as int)
            },
    {
        let n: usize = self.entries.len();
        if n == 0 {
            return None;
        }
        let mut best: usize = 0;
        let mut best_level: u8 = self.entries[0].msg.priority().level();
        let mut i: usize = 1;
        while i < n
            invariant
                n == self.entries@.len(),
                1 <= i <= n,
                best < i,
                best_level == rank_at(self.entries@, best as int),
                forall|j: int| 0 <= j < i ==> rank_at(self.entries@, j) <= best_level,
                forall|j: int| 0 <= j < best ==> rank_at(self.entries@, j) < best_level,
            decreases n - i,
        {
            let level: u8 = self.entries[i].msg.priority().level();
            if level > best_level {
                best = i;
                best_level = level;
            }
            i = i + 1;
        }
        proof {
            assert(is_next(self@, best as int));
            lemma_next_is(self@, best as int);
        }
        Some(best)
    }

    /// The priority of the message that leaves next, if any is pending.
    pub fn peek_priority(&self) -> (r: Option<crate::priority::Priority>)
        ensures
            self@.len() == 0 ==> r is None,
            self@.len() > 0 ==> r == Some(self@[next_index(self@)].msg.spec_priority()),
    {
        match self.find_next() {
            None => None,
            Some(i) => Some(self.entries[i].msg.priority()),
        }
    }

    /// Takes out the message that leaves next: one of the highest priority
    /// pending, and of those the one that was queued first. The others keep
    /// their order.
    pub fn pop(&mut self) -> (r: Option<M>)
        requires
            old(self).wf(),
        ensures
            final(self).wf(),
            old(self)@.len() == 0 ==> r is None && final(self)@ == old(self)@,
            old(self)@.len() > 0 ==> {
                &&& is_next(old(self)@, next_index(old(self)@))
                &&& r == Some(old(self)@[next_index(old(self)@)].msg)
                &&& final(self)@ == old(self)@.remove(next_index(old(self)@))
            },
            final(self).spec_next_seq() == old(self).spec_next_seq(),
    {
        match self.find_next() {
            None => None,
            Some(i) => {
                let entry = self.entries.remove(i);
                Some(entry.msg)
            },
        }
    }
}

} // verus!
