use std::collections::VecDeque;
use vstd::prelude::*;

use crate::node::Node;

verus! {

/// The pending playback requests, oldest first.
pub struct Queue {
    items: VecDeque<Node>,
}

impl View for Queue {
    type V = Seq<Node>;

    closed spec fn view(&self) -> Seq<Node> {
        self.items@
    }
}

/// The state after appending each of `xs`, in order, to `s`.
pub open spec fn enqueue_all(s: Seq<Node>, xs: Seq<Node>) -> Seq<Node>
    decreases xs.len(),
{
    if xs.len() == 0 {
        s
    } else {
        enqueue_all(s.push(xs[0]), xs.drop_first())
    }
}

/// The items that repeated `pop_front` hands out from `s` until it is empty.
pub open spec fn dequeue_order(s: Seq<Node>) -> Seq<Node>
    decreases s.len(),
{
    if s.len() == 0 {
        s
    } else {
        seq![s[0]].add(dequeue_order(s.drop_first()))
    }
}

proof fn lemma_enqueue_all_appends(s: Seq<Node>, xs: Seq<Node>)
    ensures
        enqueue_all(s, xs) == s + xs,
    decreases xs.len(),
{
    if xs.len() > 0 {
        lemma_enqueue_all_appends(s.push(xs[0]), xs.drop_first());
        assert(s.push(xs[0]) + xs.drop_first() =~= s + xs);
    } else {
        assert(s + xs =~= s);
    }
}

proof fn lemma_dequeue_order_is_identity(s: Seq<Node>)
    ensures
        dequeue_order(s) == s,
    decreases s.len(),
{
    if s.len() > 0 {
        lemma_dequeue_order_is_identity(s.drop_first());
        assert(seq![s[0]].add(s.drop_first()) =~= s);
    }
}

/// Whatever sequence of requests is enqueued on an empty queue, draining
/// it hands them out in the order in which they were enqueued. `enqueue`
/// (here and on `Handler`) appends by `push`, and `pop_front` and
/// `Handler::start_next` hand out element 0 and keep `drop_first`, which are
/// the steps of `enqueue_all` and `dequeue_order`.
pub proof fn lemma_fifo(xs: Seq<Node>)
    ensures
        dequeue_order(enqueue_all(Seq::empty(), xs)) == xs,
{
    lemma_enqueue_all_appends(Seq::empty(), xs);
    assert(Seq::<Node>::empty() + xs =~= xs);
    lemma_dequeue_order_is_identity(xs);
}

impl Queue {
    pub fn new() -> (r: Self)
        ensures
            r@ == Seq::<Node>::empty(),
    {
        Queue { items: VecDeque::new() }
    }

    pub fn len(&self) -> (r: usize)
        ensures
            r == self@.len(),
    {
        self.items.len()
    }

    pub fn is_empty(&self) -> (r: bool)
        ensures
            r == (self@.len() == 0),
    {
        self.items.len() == 0
    }

    /// Appends `item` at the back; never fails.
    pub fn enqueue(&mut self, item: Node)
        ensures
            final(self)@ == old(self)@.push(item),
    {
        self.items.push_back(item);
    }

    /// The length of the request at the front, without removing it.
    pub fn peek_front_duration(&self) -> (r: Option<u64>)
        ensures
            self@.len() == 0 ==> r is None,
            self@.len() > 0 ==> r == Some(self@[0].duration_secs),
    {
        if self.items.len() == 0 {
            None
        } else {
            Some(self.items[0].duration_secs)
        }
    }

    /// Removes and returns the request at the front, if any.
    pub fn pop_front(&mut self) -> (r: Option<Node>)
        ensures
            old(self)@.len() == 0 ==> r is None && final(self)@ == old(self)@,
            old(self)@.len() > 0 ==> r == Some(old(self)@[0]) && final(self)@ == old(
                self,
            )@.drop_first(),
    {
        self.items.pop_front()
    }

    /// Removes every request.
    pub fn clear(&mut self)
        ensures
            final(self)@ == Seq::<Node>::empty(),
    {
        self.items.clear();
    }

    /// The references of the queued requests, front first.
    pub fn urls(&self) -> (r: Vec<String>)
        ensures
            r@.len() == self@.len(),
            forall|i: int| 0 <= i < r@.len() ==> (#[trigger] r@[i])@ == self@[i].url@,
    {
        let mut out: Vec<String> = Vec::new();
        let n = self.items.len();
        let mut i: usize = 0;
        while i < n
            invariant
                n == self@.len(),
                i <= n,
                out@.len() == i,
                forall|k: int| 0 <= k < i ==> (#[trigger] out@[k])@ == self@[k].url@,
            decreases n - i,
        {
            out.push(self.items[i].url.clone());
            i = i + 1;
        }
        out
    }
}

} // verus!
