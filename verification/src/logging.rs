//! Fixed-size ring buffer for logging robot state and commands during control.

use vstd::prelude::*;

verus! {

/// The position in a ring of `cap` slots, whose next write goes to `w` and which holds
/// `count` entries, of the `i`-th oldest entry.
pub open spec fn ring_slot(w: nat, cap: nat, count: nat, i: nat) -> nat {
    let x = w + cap - count + i;
    if x < cap {
        x as nat
    } else {
        (x - cap) as nat
    }
}

/// The entries that a logger of capacity `cap` holding `entries` holds after logging `e`:
/// `e` is appended and, when the logger was full, the oldest entry is dropped.
pub open spec fn after_log<T>(entries: Seq<T>, cap: nat, e: T) -> Seq<T> {
    if entries.len() < cap {
        entries.push(e)
    } else {
        entries.push(e).drop_first()
    }
}

/// The entries that a logger of capacity `cap` holds after logging `es` from empty.
pub open spec fn after_logging_all<T>(cap: nat, es: Seq<T>) -> Seq<T>
    decreases es.len(),
{
    if es.len() == 0 {
        Seq::empty()
    } else {
        after_log(after_logging_all(cap, es.drop_last()), cap, es.last())
    }
}

/// Fixed-size ring buffer for logging robot state and commands during control.
///
/// When the buffer is full, the oldest entries are overwritten.
/// Used primarily for post-mortem diagnostics when a control error occurs.
pub struct Logger<T> {
    buffer: Vec<Option<T>>,
    write_index: usize,
    count: usize,
}

/// Default ring buffer capacity (stores ~1 second at 1kHz).
pub const DEFAULT_LOG_CAPACITY: usize = 1000;

impl<T> Logger<T> {
    /// How many entries the logger keeps.
    pub closed spec fn capacity(&self) -> nat {
        self.buffer@.len()
    }

    /// The logger's internal consistency: its counters are in range and every slot that
    /// holds a logged entry is filled.
    pub closed spec fn wf(&self) -> bool {
        let cap = self.buffer@.len();
        &&& self.count <= cap
        &&& cap == 0 ==> self.write_index == 0
        &&& cap > 0 ==> self.write_index < cap
        &&& self.count < cap ==> self.write_index == self.count
        &&& forall|i: nat|
            i < self.count ==> (#[trigger] self.buffer@[ring_slot(
                self.write_index as nat,
                cap,
                self.count as nat,
                i,
            ) as int]) is Some
    }

    /// The logged entries that are kept, oldest first.
    pub closed spec fn entries(&self) -> Seq<T> {
        Seq::new(
            self.count as nat,
            |i: int|
                self.buffer@[ring_slot(
                    self.write_index as nat,
                    self.buffer@.len(),
                    self.count as nat,
                    i as nat,
                ) as int]->0,
        )
    }

    /// An empty logger that keeps the last `capacity` entries.
    pub fn new(capacity: usize) -> (l: Logger<T>)
        ensures
            l.wf(),
            l.capacity() == capacity,
            l.entries() == Seq::<T>::empty(),
    {
        let mut buffer: Vec<Option<T>> = Vec::new();
        let mut i: usize = 0;
        while i < capacity
            invariant
                i <= capacity,
                buffer@.len() == i,
            decreases capacity - i,
        {
            buffer.push(None);
            i = i + 1;
        }
        let l = Logger { buffer, write_index: 0, count: 0 };
        assert(l.entries() =~= Seq::<T>::empty());
        l
    }

    /// Logs an entry, overwriting the oldest one when the logger is full.
    pub fn log(&mut self, entry: T)
        requires
            old(self).wf(),
            old(self).capacity() > 0,
        ensures
            final(self).wf(),
            final(self).capacity() == old(self).capacity(),
            final(self).entries() == after_log(old(self).entries(), old(self).capacity(), entry),
            final(self).entries().len() == if old(self).entries().len() < old(self).capacity() {
                old(self).entries().len() + 1
            } else {
                old(self).capacity()
            },
    {
        proof {
            self.lemma_kept_within_capacity();
        }
        let ghost old_entries = self.entries();
        let ghost cap = self.buffer@.len();
        let ghost w = self.write_index as nat;
        let ghost c = self.count as nat;
        let len = self.buffer.len();
        self.buffer.set(self.write_index, Some(entry));
        let next = self.write_index + 1;
        self.write_index = if next == len {
            0
        } else {
            next
        };
        if self.count < len {
            self.count = self.count + 1;
        }
        proof {
            let nw = self.write_index as nat;
            let nc = self.count as nat;
            assert forall|i: nat| i < nc implies (#[trigger] self.buffer@[ring_slot(
                nw,
                cap,
                nc,
                i,
            ) as int]) is Some by {
                if c < cap {
                    assert(ring_slot(nw, cap, nc, i) == i);
                    if i < c {
                        assert(ring_slot(w, cap, c, i) == i);
                    }
                } else {
                    if i + 1 < c {
                        assert(ring_slot(nw, cap, nc, i) == ring_slot(w, cap, c, i + 1));
                    } else {
                        assert(ring_slot(nw, cap, nc, i) == w);
                    }
                }
            }
            let expected = after_log(old_entries, cap, entry);
            assert forall|i: int| 0 <= i < nc implies #[trigger] self.entries()[i] == expected[i] by {
                if c < cap {
                    assert(ring_slot(nw, cap, nc, i as nat) == i);
                    if i < c {
                        assert(ring_slot(w, cap, c, i as nat) == i);
                    }
                } else {
                    if i + 1 < c {
                        assert(ring_slot(nw, cap, nc, i as nat) == ring_slot(
                            w,
                            cap,
                            c,
                            (i + 1) as nat,
                        ));
                    } else {
                        assert(ring_slot(nw, cap, nc, i as nat) == w);
                    }
                }
            }
            assert(self.entries() =~= expected);
        }
    }

    /// How many entries the logger can keep.
    pub fn buffer_capacity(&self) -> (n: usize)
        ensures
            n == self.capacity(),
    {
        self.buffer.len()
    }

    /// A well-formed logger keeps at most its capacity of entries.
    pub proof fn lemma_kept_within_capacity(&self)
        requires
            self.wf(),
        ensures
            self.entries().len() <= self.capacity(),
    {
    }

    /// How many entries are kept.
    pub fn len(&self) -> (n: usize)
        requires
            self.wf(),
        ensures
            n == self.entries().len(),
            n <= self.capacity(),
    {
        self.count
    }

    /// Whether no entry is kept.
    pub fn is_empty(&self) -> (b: bool)
        requires
            self.wf(),
        ensures
            b == (self.entries().len() == 0),
    {
        self.count == 0
    }

    /// Forgets every entry; the capacity stays.
    pub fn clear(&mut self)
        requires
            old(self).wf(),
        ensures
            final(self).wf(),
            final(self).capacity() == old(self).capacity(),
            final(self).entries() == Seq::<T>::empty(),
    {
        let len = self.buffer.len();
        let mut i: usize = 0;
        while i < len
            invariant
                i <= len,
                self.buffer@.len() == len,
            decreases len - i,
        {
            self.buffer.set(i, None);
            i = i + 1;
        }
        self.write_index = 0;
        self.count = 0;
        assert(self.entries() =~= Seq::<T>::empty());
    }
}

impl<T: Clone> Logger<T> {
    /// Returns copies of the kept entries in chronological order (oldest first).
    pub fn flush(&self) -> (r: Vec<T>)
        requires
            self.wf(),
        ensures
            r@.len() == self.entries().len(),
            forall|i: int| 0 <= i < r@.len() ==> cloned::<T>(self.entries()[i], #[trigger] r@[i]),
    {
        let cap = self.buffer.len();
        let mut result: Vec<T> = Vec::new();
        let mut i: usize = 0;
        while i < self.count
            invariant
                self.wf(),
                cap == self.buffer@.len(),
                i <= self.count,
                result@.len() == i,
                forall|j: int| 0 <= j < i ==> cloned::<T>(self.entries()[j], #[trigger] result@[j]),
            decreases self.count - i,
        {
            let idx = if self.count < cap {
                i
            } else if i < cap - self.write_index {
                self.write_index + i
            } else {
                i - (cap - self.write_index)
            };
            assert(idx == ring_slot(self.write_index as nat, cap as nat, self.count as nat, i as nat));
            match &self.buffer[idx] {
                Some(e) => {
                    result.push(e.clone());
                },
                None => {
                    assert(false);
                },
            }
            i = i + 1;
        }
        result
    }
}

/// Logging entries one by one into an empty logger of capacity `cap` keeps exactly the
/// last `cap` of them (all of them when there are fewer), in the order they were logged.
pub proof fn lemma_logger_keeps_latest<T>(cap: nat, es: Seq<T>)
    requires
        cap > 0,
    ensures
        after_logging_all(cap, es) == if es.len() <= cap {
            es
        } else {
            es.subrange(es.len() - cap, es.len() as int)
        },
    decreases es.len(),
{
    if es.len() > 0 {
        let prev = es.drop_last();
        lemma_logger_keeps_latest(cap, prev);
        if es.len() <= cap {
            assert(prev.push(es.last()) =~= es);
        } else if prev.len() <= cap {
            assert(prev.len() == cap);
            assert(prev.push(es.last()).drop_first() =~= es.subrange(
                es.len() - cap,
                es.len() as int,
            ));
        } else {
            let kept = prev.subrange(prev.len() - cap, prev.len() as int);
            assert(kept.push(es.last()).drop_first() =~= es.subrange(
                es.len() - cap,
                es.len() as int,
            ));
        }
    }
}

} // verus!
