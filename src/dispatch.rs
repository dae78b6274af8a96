//! Work handed to the window's pump thread: items wait in a queue and the
//! pump takes them one at a time, oldest first.
use vstd::prelude::*;
use std::collections::VecDeque;

verus! {

/// Items posted for the pump, in the order they were posted.
pub struct DispatchQueue<T> {
    items: VecDeque<T>,
}

impl<T> View for DispatchQueue<T> {
    type V = Seq<T>;

    closed spec fn view(&self) -> Seq<T> {
        self.items@
    }
}

/// The queue after `items` are posted to `queue` one after another.
pub open spec fn after_posts<T>(queue: Seq<T>, items: Seq<T>) -> Seq<T>
    decreases items.len(),
{
    if items.len() == 0 {
        queue
    } else {
        after_posts(queue.push(items[0]), items.drop_first())
    }
}

/// The items that taking from `queue` until it is empty hands out, in turn.
pub open spec fn take_order<T>(queue: Seq<T>) -> Seq<T>
    decreases queue.len(),
{
    if queue.len() == 0 {
        Seq::empty()
    } else {
        seq![queue[0]] + take_order(queue.subrange(1, queue.len() as int))
    }
}

/// Posting appends to what waits.
pub proof fn lemma_after_posts<T>(queue: Seq<T>, items: Seq<T>)
    ensures
        after_posts(queue, items) == queue + items,
    decreases items.len(),
{
    if items.len() > 0 {
        lemma_after_posts(queue.push(items[0]), items.drop_first());
        assert(queue.push(items[0]) + items.drop_first() =~= queue + items);
    }
}

/// Taking hands out what waits, front first.
pub proof fn lemma_take_order<T>(queue: Seq<T>)
    ensures
        take_order(queue) == queue,
    decreases queue.len(),
{
    if queue.len() > 0 {
        lemma_take_order(queue.subrange(1, queue.len() as int));
        assert(seq![queue[0]] + queue.subrange(1, queue.len() as int) =~= queue);
    }
}

/// Items posted one after another while the pump is busy run in exactly the
/// order they were posted, after whatever was already waiting.
pub proof fn lemma_dispatch_order<T>(waiting: Seq<T>, posted: Seq<T>)
    ensures
        take_order(after_posts(waiting, posted)) == waiting + posted,
        take_order(after_posts(Seq::empty(), posted)) == posted,
{
    lemma_after_posts(waiting, posted);
    lemma_take_order(waiting + posted);
    lemma_after_posts(Seq::empty(), posted);
    lemma_take_order(Seq::<T>::empty() + posted);
    assert(Seq::<T>::empty() + posted =~= posted);
}

impl<T> DispatchQueue<T> {
    /// An empty queue.
    pub fn new() -> (r: Self)
        ensures
            r@ == Seq::<T>::empty(),
    {
        DispatchQueue { items: VecDeque::new() }
    }

    /// Posts `item` behind everything that waits.
    pub fn post(&mut self, item: T)
        ensures
            final(self)@ == old(self)@.push(item),
    {
        self.items.push_back(item);
    }

    /// Takes the oldest waiting item, or `None` when nothing waits.
    pub fn take(&mut self) -> (r: Option<T>)
        ensures
            match r {
                Some(item) => old(self)@.len() > 0 && item == old(self)@[0]
                    && final(self)@ == old(self)@.subrange(1, old(self)@.len() as int),
                None => old(self)@.len() == 0 && final(self)@ == old(self)@,
            },
    {
        self.items.pop_front()
    }

    /// Takes everything that waits, oldest first.
    pub fn drain(&mut self) -> (r: Vec<T>)
        ensures
            r@ == take_order(old(self)@),
            r@ == old(self)@,
            final(self)@ == Seq::<T>::empty(),
    {
        let mut out: Vec<T> = Vec::new();
        let ghost start = self.items@;
        while self.items.len() > 0
            invariant
                out@ + self.items@ == start,
            decreases self.items@.len(),
        {
            match self.items.pop_front() {
                Some(item) => {
                    out.push(item);
                    assert(out@ + self.items@ =~= start);
                },
                None => {},
            }
        }
        proof {
            assert(out@ =~= start);
            lemma_take_order(start);
        }
        out
    }

    /// The number of waiting items.
    pub fn len(&self) -> (r: usize)
        ensures
            r == self@.len(),
    {
        self.items.len()
    }

    /// Whether nothing waits.
    pub fn is_empty(&self) -> (r: bool)
        ensures
            r == (self@.len() == 0),
    {
        self.items.len() == 0
    }
}

} // verus!
