//! Bounded queue between the capture side and the encoder.
//!
//! The queue keeps its items in a fixed array of `N` slots, `N` a power of
//! two, and two free-running counters: `head` counts the items ever
//! written, `tail` the items ever read, both modulo the machine word. Item
//! `k` of the queue lives in slot `(tail + k) mod N`. One slot always stays
//! free, so that a full queue and an empty one differ.
//!
//! Writing and reading take the queue by exclusive reference: one producer
//! and one consumer share a queue by handing that reference back and forth.

use vstd::prelude::*;
use vstd::arithmetic::div_mod::{
    lemma_fundamental_div_mod,
    lemma_mod_equivalence,
    lemma_mod_multiples_vanish,
    lemma_small_mod,
};
use vstd::arithmetic::power2::{
    lemma2_to64,
    lemma_pow2_adds,
    lemma_pow2_pos,
    lemma_pow2_strictly_increases,
    pow2,
};
use vstd::bits::lemma_usize_low_bits_mask_is_mod;
use portable_atomic::AtomicUsize;
use crate::audio_pipeline::counter::{counter_load, counter_new, counter_store, counter_value};

verus! {

/// Whether `n` is a power of two.
pub open spec fn power_of_two(n: usize) -> bool {
    exists|k: nat| n == pow2(k)
}

/// How far counter `head` is ahead of counter `tail` on the circle of
/// machine words.
pub open spec fn ahead(head: usize, tail: usize) -> int {
    if head >= tail {
        head - tail
    } else {
        head - tail + usize::MAX + 1
    }
}

/// The slot that lies `k` places after counter value `start`.
pub open spec fn slot(start: usize, k: int, n: usize) -> int {
    (start + k) % (n as int)
}

/// The smaller of two lengths.
pub open spec fn least(a: int, b: int) -> int {
    if a < b {
        a
    } else {
        b
    }
}

/// The machine word has `usize::BITS` bits, and a power of two that fits
/// it has a smaller exponent.
proof fn lemma_word(n: usize, k: nat)
    requires
        n == pow2(k),
    ensures
        k < usize::BITS,
        usize::MAX + 1 == pow2(usize::BITS as nat),
{
    lemma2_to64();
    assert(usize::BITS == 32 || usize::BITS == 64);
    assert(usize::BITS == 32 ==> usize::MAX == 0xFFFF_FFFF);
    assert(usize::BITS == 64 ==> usize::MAX == 0xFFFF_FFFF_FFFF_FFFF);
    if k >= usize::BITS {
        if k > usize::BITS {
            lemma_pow2_strictly_increases(usize::BITS as nat, k);
        }
    }
}

/// Masking with `n - 1` is the remainder by `n`.
proof fn lemma_mask(n: usize, x: usize)
    requires
        power_of_two(n),
    ensures
        n > 0,
        x & ((n - 1) as usize) == x % n,
{
    let k = choose|k: nat| n == pow2(k);
    lemma_word(n, k);
    lemma_pow2_pos(k);
    lemma_usize_low_bits_mask_is_mod(x, k);
}

/// A power of two divides the number of machine words.
proof fn lemma_word_count_divides(n: usize)
    requires
        power_of_two(n),
    ensures
        n > 0,
        (usize::MAX + 1) % (n as int) == 0,
{
    let k = choose|k: nat| n == pow2(k);
    lemma_word(n, k);
    lemma_pow2_pos(k);
    let rest = (usize::BITS - k) as nat;
    lemma_pow2_adds(k, rest);
    lemma_mod_multiples_vanish(pow2(rest) as int, 0, n as int);
    lemma_small_mod(0, n as nat);
}

/// Shifting a position by whole turns of the word circle keeps its slot.
proof fn lemma_slot_turn(n: usize, x: int)
    requires
        power_of_two(n),
    ensures
        (x - (usize::MAX + 1)) % (n as int) == x % (n as int),
        (x + (usize::MAX + 1)) % (n as int) == x % (n as int),
{
    lemma_word_count_divides(n);
    let w = usize::MAX + 1;
    let q = w / (n as int);
    lemma_fundamental_div_mod(w, n as int);
    assert(x - w == n * (-q) + x) by (nonlinear_arith)
        requires
            w == n * q,
    ;
    lemma_mod_multiples_vanish(-q, x, n as int);
    lemma_mod_multiples_vanish(q, x, n as int);
}

/// The masked index that the code computes is the slot of the model.
proof fn lemma_index(n: usize, start: usize, k: usize)
    requires
        power_of_two(n),
    ensures
        vstd::wrapping::usize_specs::wrapping_add(start, k) & ((n - 1) as usize) == slot(
            start,
            k as int,
            n,
        ),
        0 <= slot(start, k as int, n) < n,
{
    let w = vstd::wrapping::usize_specs::wrapping_add(start, k);
    lemma_mask(n, w);
    lemma_slot_turn(n, start + k);
}

/// A slot counted from `head` is the slot counted from `tail` that lies
/// further by the distance between the two.
proof fn lemma_slot_from_tail(n: usize, head: usize, tail: usize, k: int)
    requires
        power_of_two(n),
    ensures
        slot(head, k, n) == slot(tail, ahead(head, tail) + k, n),
{
    lemma_slot_turn(n, head + k);
}

/// Fewer than `n` consecutive positions fall into different slots.
proof fn lemma_slots_differ(n: usize, start: usize, j: int, k: int)
    requires
        n > 0,
        0 <= j < k < n,
    ensures
        slot(start, j, n) != slot(start, k, n),
{
    lemma_mod_equivalence(start + k, start + j, n as int);
    lemma_small_mod((k - j) as nat, n as nat);
}

/// Single-producer, single-consumer ring buffer of `N` slots, `N` a power
/// of two, that holds up to `N - 1` items.
pub struct RingBuffer<T, const N: usize> {
    buffer: [Option<T>; N],
    head: AtomicUsize,
    tail: AtomicUsize,
}

impl<T: Copy, const N: usize> RingBuffer<T, N> {
    /// Number of items in the queue, by the counters.
    pub closed spec fn count(&self) -> int {
        ahead(counter_value(self.head), counter_value(self.tail))
    }

    /// The counters are at most `N - 1` apart and every slot between them
    /// holds an item.
    pub closed spec fn wf(&self) -> bool {
        &&& power_of_two(N)
        &&& self.count() <= N - 1
        &&& forall|k: int|
            0 <= k < self.count() ==> (#[trigger] self.buffer[slot(
                counter_value(self.tail),
                k,
                N,
            )]) is Some
    }

    /// The queued items, oldest first.
    pub closed spec fn view(&self) -> Seq<T> {
        Seq::new(
            self.count() as nat,
            |k: int| self.buffer[slot(counter_value(self.tail), k, N)].unwrap(),
        )
    }

    /// Create a new empty ring buffer. `N` must be a power of two.
    pub fn new() -> (r: Self)
        requires
            power_of_two(N),
        ensures
            r.wf(),
            r@ == Seq::<T>::empty(),
    {
        let r = RingBuffer { buffer: [None; N], head: counter_new(0), tail: counter_new(0) };
        proof {
            lemma_word_count_divides(N);
            assert(r@ =~= Seq::<T>::empty());
        }
        r
    }

    /// Number of items that can be read.
    pub fn available_read(&self) -> (r: usize)
        requires
            self.wf(),
        ensures
            r == self@.len(),
            r <= N - 1,
    {
        let head = counter_load(&self.head);
        let tail = counter_load(&self.tail);
        head.wrapping_sub(tail)
    }

    /// Number of items that can be written: one slot stays free, so that a
    /// full queue differs from an empty one.
    pub fn available_write(&self) -> (r: usize)
        requires
            self.wf(),
        ensures
            r == N - 1 - self@.len(),
    {
        N - 1 - self.available_read()
    }

    /// Check if buffer is empty.
    pub fn is_empty(&self) -> (r: bool)
        requires
            self.wf(),
        ensures
            r == (self@.len() == 0),
    {
        self.available_read() == 0
    }

    /// Check if buffer is full.
    pub fn is_full(&self) -> (r: bool)
        requires
            self.wf(),
        ensures
            r == (self@.len() == N - 1),
    {
        self.available_write() == 0
    }

    /// Write items to the buffer: as many of `data`, from its start, as
    /// there is room for. Returns the number of items written.
    pub fn write(&mut self, data: &[T]) -> (written: usize)
        requires
            old(self).wf(),
        ensures
            final(self).wf(),
            written == least(data@.len() as int, N - 1 - old(self)@.len()),
            final(self)@ == old(self)@ + data@.subrange(0, written as int),
    {
        let available = self.available_write();
        let to_write: usize = if data.len() < available {
            data.len()
        } else {
            available
        };
        if to_write == 0 {
            assert(self@ =~= old(self)@ + data@.subrange(0, 0));
            return 0;
        }
        let head = counter_load(&self.head);
        let ghost tail = counter_value(self.tail);
        let ghost queued = self.count();
        let mut i: usize = 0;
        while i < to_write
            invariant
                power_of_two(N),
                i <= to_write <= data.len(),
                queued + to_write <= N - 1,
                counter_value(self.head) == head,
                counter_value(self.tail) == tail,
                queued == ahead(head, tail),
                forall|k: int|
                    0 <= k < queued ==> #[trigger] self.buffer[slot(tail, k, N)] == old(
                        self,
                    ).buffer[slot(tail, k, N)],
                forall|j: int|
                    0 <= j < i ==> #[trigger] self.buffer[slot(tail, queued + j, N)] == Some(
                        data@[j],
                    ),
            decreases to_write - i,
        {
            let idx = head.wrapping_add(i) & (N - 1);
            proof {
                lemma_index(N, head, i);
                lemma_slot_from_tail(N, head, tail, i as int);
                assert forall|k: int| 0 <= k < queued + i implies #[trigger] slot(tail, k, N) != idx by {
                    lemma_slots_differ(N, tail, k, queued + i);
                }
            }
            self.buffer[idx] = Some(data[i]);
            i += 1;
        }
        counter_store(&mut self.head, head.wrapping_add(to_write));
        proof {
            assert(self.count() == queued + to_write);
            assert forall|k: int| 0 <= k < queued + to_write implies (#[trigger] self.buffer[slot(
                tail,
                k,
                N,
            )]) == (if k < queued {
                old(self).buffer[slot(tail, k, N)]
            } else {
                Some(data@[k - queued])
            }) by {
                if k >= queued {
                    let j = k - queued;
                    assert(self.buffer[slot(tail, queued + j, N)] == Some(data@[j]));
                }
            }
            assert(self@ =~= old(self)@ + data@.subrange(0, to_write as int));
        }
        to_write
    }

    /// Read items from the buffer: as many as `buf` has room for, oldest
    /// first, into the start of `buf`. Returns the number of items read.
    pub fn read(&mut self, buf: &mut [T]) -> (taken: usize)
        requires
            old(self).wf(),
        ensures
            final(self).wf(),
            taken == least(old(buf)@.len() as int, old(self)@.len() as int),
            final(buf)@ == old(self)@.subrange(0, taken as int) + old(buf)@.subrange(
                taken as int,
                old(buf)@.len() as int,
            ),
            final(self)@ == old(self)@.subrange(taken as int, old(self)@.len() as int),
    {
        let available = self.available_read();
        let to_read: usize = if buf.len() < available {
            buf.len()
        } else {
            available
        };
        if to_read == 0 {
            assert(buf@ =~= old(self)@.subrange(0, 0) + old(buf)@.subrange(
                0,
                old(buf)@.len() as int,
            ));
            assert(self@ =~= old(self)@.subrange(0, old(self)@.len() as int));
            return 0;
        }
        let tail = counter_load(&self.tail);
        let ghost head = counter_value(self.head);
        let ghost queued = self.count();
        let mut i: usize = 0;
        while i < to_read
            invariant
                power_of_two(N),
                *self == *old(self),
                self.wf(),
                buf@.len() == old(buf)@.len(),
                i <= to_read <= buf@.len(),
                to_read <= queued <= N - 1,
                counter_value(self.tail) == tail,
                queued == self.count(),
                forall|j: int| 0 <= j < i ==> buf@[j] == old(self)@[j],
                forall|j: int| i <= j < buf@.len() ==> buf@[j] == old(buf)@[j],
            decreases to_read - i,
        {
            let idx = tail.wrapping_add(i) & (N - 1);
            proof {
                lemma_index(N, tail, i);
                assert(self.buffer[slot(tail, i as int, N)] is Some);
            }
            buf[i] = self.buffer[idx].unwrap();
            i += 1;
        }
        counter_store(&mut self.tail, tail.wrapping_add(to_read));
        proof {
            let next = counter_value(self.tail);
            assert(self.count() == queued - to_read);
            assert forall|k: int| 0 <= k < queued - to_read implies #[trigger] slot(next, k, N)
                == slot(tail, to_read + k, N) by {
                lemma_slot_turn(N, tail + to_read + k);
            }
            assert(self@ =~= old(self)@.subrange(to_read as int, old(self)@.len() as int));
            assert(buf@ =~= old(self)@.subrange(0, to_read as int) + old(buf)@.subrange(
                to_read as int,
                old(buf)@.len() as int,
            ));
        }
        to_read
    }

    /// Clear the buffer: both counters go back to zero.
    pub fn clear(&mut self)
        requires
            old(self).wf(),
        ensures
            final(self).wf(),
            final(self)@ == Seq::<T>::empty(),
    {
        counter_store(&mut self.head, 0);
        counter_store(&mut self.tail, 0);
        proof {
            lemma_word_count_divides(N);
            assert(self@ =~= Seq::<T>::empty());
        }
    }
}

impl<T: Copy, const N: usize> Default for RingBuffer<T, N> {
    /// An empty ring buffer, where `N` is a power of two.
    fn default() -> (r: Self)
        ensures
            power_of_two(N) ==> r.wf() && r@ == Seq::<T>::empty(),
    {
        let r = RingBuffer { buffer: [None; N], head: counter_new(0), tail: counter_new(0) };
        proof {
            if power_of_two(N) {
                lemma_word_count_divides(N);
                assert(r@ =~= Seq::<T>::empty());
            }
        }
        r
    }
}

} // verus!
