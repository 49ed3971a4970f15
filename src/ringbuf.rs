//! A fixed-capacity circular FIFO buffer.
use vstd::prelude::*;

verus! {

/// Number of items the buffer holds.
pub const BUFFER_SIZE: usize = 100;

pub struct RingBuffer<T> {
    buffer: [Option<T>; 100],
    head: usize,
    tail: usize,
    size: usize,
}

#[derive(PartialEq, Eq, Structural, Clone, Copy, Debug)]
pub enum BufferError {
    Overflow,
}

impl<T: Copy> RingBuffer<T> {
    /// The array slot of the `i`-th oldest item.
    pub closed spec fn slot(&self, i: int) -> int {
        if self.head + i < 100 {
            self.head + i
        } else {
            self.head + i - 100
        }
    }

    /// The items, oldest first.
    pub closed spec fn view(&self) -> Seq<T> {
        Seq::new(self.size as nat, |i: int| self.buffer@[self.slot(i)]->Some_0)
    }

    pub closed spec fn wf(&self) -> bool {
        &&& self.head < 100
        &&& self.size <= 100
        &&& self.tail as int == self.slot(self.size as int) % 100
        &&& forall|i: int| 0 <= i < self.size ==> (#[trigger] self.buffer@[self.slot(i)]) is Some
    }

    pub fn new() -> (r: RingBuffer<T>)
        ensures
            r.wf(),
            r@ == Seq::<T>::empty(),
    {
        let r = RingBuffer { buffer: [None; 100], head: 0, tail: 0, size: 0 };
        assert(r@ =~= Seq::<T>::empty());
        r
    }

    /// Appends an item; a full buffer refuses it and stays as it is.
    pub fn push(&mut self, item: T) -> (r: Result<(), BufferError>)
        requires
            old(self).wf(),
        ensures
            final(self).wf(),
            old(self)@.len() < 100 ==> r is Ok && final(self)@ == old(self)@.push(item),
            old(self)@.len() >= 100 ==> r == Err::<(), BufferError>(BufferError::Overflow) && final(self)@ == old(self)@,
    {
        if self.size < BUFFER_SIZE {
            let ghost before = *self;
            self.buffer[self.tail] = Some(item);
            self.tail = (self.tail + 1) % BUFFER_SIZE;
            self.size = self.size + 1;
            assert forall|i: int| 0 <= i < self.size implies (#[trigger] self.buffer@[self.slot(i)]) is Some by {
                if i < before.size {
                    assert(self.slot(i) == before.slot(i));
                }
            }
            assert(self@ =~= before@.push(item)) by {
                assert forall|i: int| 0 <= i < before.size implies self@[i] == before@[i] by {
                    assert(self.slot(i) == before.slot(i));
                }
            }
            Ok(())
        } else {
            Err(BufferError::Overflow)
        }
    }

    /// The oldest item, if any.
    pub fn peek(&self) -> (r: Option<T>)
        requires
            self.wf(),
        ensures
            self@.len() > 0 ==> r == Some(self@[0]),
            self@.len() == 0 ==> r is None,
    {
        if self.size > 0 {
            assert(self.buffer@[self.slot(0)] is Some);
            self.buffer[self.head]
        } else {
            None
        }
    }

    /// Drops the oldest item, if any.
    pub fn discard(&mut self)
        requires
            old(self).wf(),
        ensures
            final(self).wf(),
            old(self)@.len() > 0 ==> final(self)@ == old(self)@.drop_first(),
            old(self)@.len() == 0 ==> final(self)@ == old(self)@,
    {
        if self.size > 0 {
            let ghost before = *self;
            self.buffer[self.head] = None;
            self.head = (self.head + 1) % BUFFER_SIZE;
            self.size = self.size - 1;
            assert forall|i: int| 0 <= i < self.size implies (#[trigger] self.buffer@[self.slot(i)]) is Some by {
                assert(self.slot(i) == before.slot(i + 1));
            }
            assert(self@ =~= before@.drop_first()) by {
                assert forall|i: int| 0 <= i < self.size implies self@[i] == before@[i + 1] by {
                    assert(self.slot(i) == before.slot(i + 1));
                }
            }
        }
    }

    pub fn len(&self) -> (r: usize)
        requires
            self.wf(),
        ensures
            r == self@.len(),
            r <= BUFFER_SIZE,
    {
        self.size
    }
}

/// Items pushed in order come out in the same order, each once: after pushing
/// `a`, `b`, `c` onto an empty buffer, the head is `a`; after one discard it is
/// `b`; after two, `c`; after three the buffer is empty.
pub proof fn lemma_fifo<T>(a: T, b: T, c: T)
    ensures
        ({
            let s = Seq::<T>::empty().push(a).push(b).push(c);
            &&& s[0] == a
            &&& s.drop_first()[0] == b
            &&& s.drop_first().drop_first()[0] == c
            &&& s.drop_first().drop_first().drop_first().len() == 0
        }),
{
}

} // verus!
