use vstd::prelude::*;

use crate::api_type::Nanos;
use crate::logger::data_type::LogMessage;

verus! {

/// What remains of `s` after dropping its longest prefix of messages no
/// newer than `t`.
pub open spec fn drop_while_le(s: Seq<LogMessage>, t: Nanos) -> Seq<LogMessage>
    decreases s.len(),
{
    if s.len() == 0 {
        s
    } else if s[0].timeNanos <= t {
        drop_while_le(s.drop_first(), t)
    } else {
        s
    }
}

/// What remains of `s` after dropping its longest prefix of messages no
/// older than `t`.
pub open spec fn drop_while_ge(s: Seq<LogMessage>, t: Nanos) -> Seq<LogMessage>
    decreases s.len(),
{
    if s.len() == 0 {
        s
    } else if s[0].timeNanos >= t {
        drop_while_ge(s.drop_first(), t)
    } else {
        s
    }
}

/// Forward iteration order: oldest first, resuming just past the cursor
/// when one is given.
pub open spec fn forward_view(s: Seq<LogMessage>, from_time_nanos: Option<Nanos>) -> Seq<
    LogMessage,
> {
    match from_time_nanos {
        None => s,
        Some(t) => drop_while_le(s, t),
    }
}

/// Reverse iteration order: newest first, resuming just past the cursor
/// when one is given.
pub open spec fn reverse_view(s: Seq<LogMessage>, up_to_time_nanos: Option<Nanos>) -> Seq<
    LogMessage,
> {
    match up_to_time_nanos {
        None => s.reverse(),
        Some(t) => drop_while_ge(s.reverse(), t),
    }
}

/// Unfiltered forward and reverse iteration over one store walk the same
/// message set in exactly reversed orders.
pub proof fn lemma_forward_reverse_mirror(s: Seq<LogMessage>)
    ensures
        reverse_view(s, None) == forward_view(s, None).reverse(),
        forward_view(s, None) == reverse_view(s, None).reverse(),
{
    assert(s.reverse().reverse() =~= s);
}

/// Dropping a scanned prefix is taking a suffix: the prefix scanned past is
/// exactly the messages at or before the cursor, up to the first newer one.
proof fn lemma_drop_while_le_is_skip(s: Seq<LogMessage>, t: Nanos, k: int)
    requires
        0 <= k <= s.len(),
        forall|j: int| 0 <= j < k ==> s[j].timeNanos <= t,
        k == s.len() || s[k].timeNanos > t,
    ensures
        drop_while_le(s, t) == s.skip(k),
    decreases k,
{
    if k == 0 {
        assert(s.skip(0) =~= s);
    } else {
        lemma_drop_while_le_is_skip(s.drop_first(), t, k - 1);
        assert(s.drop_first().skip(k - 1) =~= s.skip(k));
    }
}

/// The mirror of `lemma_drop_while_le_is_skip` for reverse scans.
proof fn lemma_drop_while_ge_is_skip(s: Seq<LogMessage>, t: Nanos, k: int)
    requires
        0 <= k <= s.len(),
        forall|j: int| 0 <= j < k ==> s[j].timeNanos >= t,
        k == s.len() || s[k].timeNanos < t,
    ensures
        drop_while_ge(s, t) == s.skip(k),
    decreases k,
{
    if k == 0 {
        assert(s.skip(0) =~= s);
    } else {
        lemma_drop_while_ge_is_skip(s.drop_first(), t, k - 1);
        assert(s.drop_first().skip(k - 1) =~= s.skip(k));
    }
}

/// What one insertion does to the retained sequence: appended below
/// capacity, and displacing the oldest retained message at capacity. This
/// is exactly the relation `store_log_message` ensures.
pub open spec fn ring_step(s: Seq<LogMessage>, capacity: int, m: LogMessage) -> Seq<LogMessage> {
    if s.len() < capacity {
        s.push(m)
    } else {
        s.skip(1).push(m)
    }
}

/// The retained sequence after inserting `history`, in order, into an
/// empty store of the given capacity.
pub open spec fn ring_run(capacity: int, history: Seq<LogMessage>) -> Seq<LogMessage>
    decreases history.len(),
{
    if history.len() == 0 {
        Seq::<LogMessage>::empty()
    } else {
        ring_step(ring_run(capacity, history.drop_last()), capacity, history.last())
    }
}

/// However many messages are inserted, the store retains at most its
/// capacity, and what it retains is exactly the most recent insertions, in
/// insertion order.
pub proof fn lemma_ring_retains_most_recent(capacity: int, history: Seq<LogMessage>)
    requires
        capacity >= 1,
    ensures
        ring_run(capacity, history).len() <= capacity,
        ring_run(capacity, history) == history.skip(
            if history.len() > capacity {
                history.len() - capacity
            } else {
                0
            },
        ),
    decreases history.len(),
{
    if history.len() == 0 {
        assert(ring_run(capacity, history) =~= history.skip(0));
    } else {
        let previous = history.drop_last();
        lemma_ring_retains_most_recent(capacity, previous);
        let k_prev: int = if previous.len() > capacity {
            previous.len() - capacity
        } else {
            0
        };
        let k: int = if history.len() > capacity {
            history.len() - capacity
        } else {
            0
        };
        if previous.len() - k_prev < capacity {
            assert(ring_run(capacity, history) =~= history.skip(k));
        } else {
            assert(ring_run(capacity, history) =~= history.skip(k));
        }
    }
}

/// Fixed-capacity circular store of timestamped log messages: once full,
/// each insertion overwrites the oldest retained message.
pub struct Storage {
    queue: Vec<LogMessage>,
    max_count: usize,
    next: usize,
    full: bool,
}

impl Storage {
    /// The backing array, in slot order.
    pub closed spec fn raw_queue(&self) -> Seq<LogMessage> {
        self.queue@
    }

    /// The slot the next insertion writes.
    pub closed spec fn raw_next(&self) -> int {
        self.next as int
    }

    /// Whether capacity-many insertions have happened since the last
    /// capacity change.
    pub closed spec fn raw_full(&self) -> bool {
        self.full
    }

    /// How many messages the store can retain.
    pub closed spec fn capacity(&self) -> int {
        self.max_count as int
    }

    pub open spec fn well_formed(&self) -> bool {
        &&& self.capacity() >= 1
        &&& if self.raw_full() {
            self.raw_queue().len() == self.capacity() && 0 <= self.raw_next() < self.capacity()
        } else {
            self.raw_next() == self.raw_queue().len() && self.raw_next() < self.capacity()
        }
    }

    /// The retained messages, oldest first.
    pub open spec fn messages(&self) -> Seq<LogMessage> {
        if self.raw_full() {
            self.raw_queue().subrange(self.raw_next(), self.capacity()) + self.raw_queue().subrange(
                0,
                self.raw_next(),
            )
        } else {
            self.raw_queue()
        }
    }

    /// A well-formed store never retains more messages than its capacity.
    pub proof fn lemma_capacity_bound(&self)
        requires
            self.well_formed(),
        ensures
            self.messages().len() <= self.capacity(),
    {
    }

    /// An empty store of the given capacity.
    pub fn new(max_messages_count: usize) -> (r: Self)
        requires
            max_messages_count >= 1,
        ensures
            r.well_formed(),
            r.capacity() == max_messages_count,
            r.messages() == Seq::<LogMessage>::empty(),
    {
        Storage::init(Vec::new(), max_messages_count, 0, false)
    }

    /// Assemble a store from its parts, as rebuilt after a restart
    /// boundary. The parts must be mutually consistent, as `well_formed`
    /// demands.
    pub fn init(queue: Vec<LogMessage>, max_count: usize, next: usize, full: bool) -> (r: Self)
        requires
            max_count >= 1,
            full ==> queue@.len() == max_count && next < max_count,
            !full ==> next == queue@.len() && next < max_count,
        ensures
            r.well_formed(),
            r.raw_queue() == queue@,
            r.raw_next() == next as int,
            r.raw_full() == full,
            r.capacity() == max_count as int,
    {
        Self { queue, max_count, next, full }
    }

    /// Borrow the parts, as exported across a restart boundary.
    pub fn export_parts(&self) -> (r: (&Vec<LogMessage>, usize, usize, bool))
        ensures
            r.0@ == self.raw_queue(),
            r.1 == self.capacity(),
            r.2 == self.raw_next(),
            r.3 == self.raw_full(),
    {
        (&self.queue, self.max_count, self.next, self.full)
    }

    /// How many messages are retained.
    pub fn get_count(&self) -> (r: usize)
        requires
            self.well_formed(),
        ensures
            r == self.messages().len(),
    {
        if self.full {
            self.max_count
        } else {
            self.next
        }
    }

    /// The slot of the oldest retained message.
    pub fn get_first_index(&self) -> (r: usize)
        requires
            self.well_formed(),
        ensures
            r as int == if self.raw_full() {
                self.raw_next()
            } else {
                0
            },
    {
        if self.full {
            self.next
        } else {
            0
        }
    }

    /// Borrow the retained message at position `i`, oldest first.
    pub fn message_at(&self, i: usize) -> (r: &LogMessage)
        requires
            self.well_formed(),
            i < self.messages().len(),
        ensures
            *r == self.messages()[i as int],
    {
        if self.full {
            let idx: usize = if i < self.max_count - self.next {
                self.next + i
            } else {
                i - (self.max_count - self.next)
            };
            &self.queue[idx]
        } else {
            &self.queue[i]
        }
    }

    /// How many messages are retained, as a narrow count.
    pub fn get_log_messages_count(&self) -> (r: u32)
        requires
            self.well_formed(),
            self.messages().len() <= u32::MAX,
        ensures
            r == self.messages().len(),
    {
        self.queue.len() as u32
    }

    /// Timestamp of the oldest retained message.
    pub fn get_first_log_message_time(&self) -> (r: Option<Nanos>)
        requires
            self.well_formed(),
        ensures
            r == if self.messages().len() == 0 {
                None::<Nanos>
            } else {
                Some(self.messages()[0].timeNanos)
            },
    {
        if self.queue.is_empty() {
            None
        } else {
            let index: usize = if self.full {
                self.next
            } else {
                0
            };
            Some(self.queue[index].timeNanos)
        }
    }

    /// Timestamp of the newest retained message.
    pub fn get_last_log_message_time(&self) -> (r: Option<Nanos>)
        requires
            self.well_formed(),
        ensures
            r == if self.messages().len() == 0 {
                None::<Nanos>
            } else {
                Some(self.messages().last().timeNanos)
            },
    {
        if self.queue.is_empty() {
            None
        } else {
            let index: usize = if self.next == 0 {
                self.max_count - 1
            } else {
                self.next - 1
            };
            Some(self.queue[index].timeNanos)
        }
    }

    /// Insert a message: appended while the store still grows toward its
    /// capacity, and replacing the oldest retained message once it is full.
    pub fn store_log_message(&mut self, log_message: LogMessage)
        requires
            old(self).well_formed(),
        ensures
            final(self).well_formed(),
            final(self).capacity() == old(self).capacity(),
            old(self).messages().len() < old(self).capacity() ==> final(self).messages() == old(
                self,
            ).messages().push(log_message),
            old(self).messages().len() == old(self).capacity() ==> final(self).messages() == old(
                self,
            ).messages().subrange(1, old(self).messages().len() as int).push(log_message),
            final(self).messages().len() <= final(self).capacity(),
    {
        let ghost old_messages = self.messages();
        if self.full {
            self.queue.set(self.next, log_message);
        } else {
            self.queue.push(log_message);
        }
        self.next = self.next + 1;
        if self.next == self.max_count {
            self.full = true;
            self.next = 0;
        }
        proof {
            if old(self).raw_full() {
                assert(self.messages() =~= old_messages.subrange(
                    1,
                    old_messages.len() as int,
                ).push(log_message));
            } else {
                assert(self.messages() =~= old_messages.push(log_message));
            }
        }
    }

    /// Change the capacity: rebuild the store around the most recently
    /// retained `min(count, new capacity)` messages, in their original
    /// order. A no-op change of capacity leaves the store untouched.
    pub fn set_max_messages_count(&mut self, new_max_messages_count: usize)
        requires
            old(self).well_formed(),
            new_max_messages_count >= 1,
        ensures
            final(self).well_formed(),
            final(self).capacity() == new_max_messages_count,
            old(self).capacity() == new_max_messages_count ==> *final(self) == *old(self),
            final(self).messages() == old(self).messages().skip(
                if old(self).messages().len() > new_max_messages_count {
                    old(self).messages().len() - new_max_messages_count
                } else {
                    0
                },
            ),
    {
        if self.max_count == new_max_messages_count {
            proof {
                assert(self.messages() =~= self.messages().skip(0));
            }
            return;
        }

        let mut new_storage = Storage::new(new_max_messages_count);

        let count = self.get_count();
        let first_index = self.get_first_index();
        let keep: usize = if new_max_messages_count >= count {
            count
        } else {
            new_max_messages_count
        };
        let to_skip: usize = count - keep;

        let mut idx: usize = if count == 0 {
            first_index
        } else if to_skip >= self.max_count - first_index {
            to_skip - (self.max_count - first_index)
        } else {
            first_index + to_skip
        };
        let mut j: usize = 0;
        while j < keep
            invariant
                self.well_formed(),
                self == old(self),
                new_storage.well_formed(),
                new_storage.capacity() == new_max_messages_count,
                j <= keep,
                keep <= new_max_messages_count,
                keep <= count,
                to_skip == count - keep,
                count == self.messages().len(),
                new_storage.messages() == self.messages().subrange(
                    to_skip as int,
                    to_skip as int + j as int,
                ),
                idx < self.max_count,
                idx as int == if self.raw_full() {
                    if self.raw_next() + to_skip + j < self.capacity() {
                        self.raw_next() + to_skip + j
                    } else if self.raw_next() + to_skip + j < 2 * self.capacity() {
                        self.raw_next() + to_skip + j - self.capacity()
                    } else {
                        self.raw_next() + to_skip + j - 2 * self.capacity()
                    }
                } else {
                    to_skip + j
                },
            decreases keep - j,
        {
            let message = self.queue[idx].clone();
            proof {
                assert(message == self.messages()[to_skip as int + j as int]);
            }
            new_storage.store_log_message(message);
            idx = if idx + 1 == self.max_count {
                0
            } else {
                idx + 1
            };
            j = j + 1;
            proof {
                assert(new_storage.messages() =~= self.messages().subrange(
                    to_skip as int,
                    to_skip as int + j as int,
                ));
            }
        }
        proof {
            assert(new_storage.messages() =~= self.messages().skip(to_skip as int));
        }
        *self = new_storage;
    }

    /// The retained messages in forward order, starting just past the
    /// cursor when one is given.
    pub fn get_log_messages(&self, from_time_nanos: &Option<Nanos>) -> (r: Vec<LogMessage>)
        requires
            self.well_formed(),
        ensures
            r@ == forward_view(self.messages(), *from_time_nanos),
    {
        let count = self.get_count();
        let mut start: usize = 0;
        match from_time_nanos {
            Some(t) => {
                while start < count && self.message_at(start).timeNanos <= *t
                    invariant
                        self.well_formed(),
                        count == self.messages().len(),
                        0 <= start <= count,
                        forall|j: int| 0 <= j < start ==> self.messages()[j].timeNanos <= *t,
                    decreases count - start,
                {
                    start = start + 1;
                }
                proof {
                    lemma_drop_while_le_is_skip(self.messages(), *t, start as int);
                }
            },
            None => {
                proof {
                    assert(self.messages().skip(0) =~= self.messages());
                }
            },
        }
        let mut out: Vec<LogMessage> = Vec::new();
        let mut i: usize = start;
        while i < count
            invariant
                self.well_formed(),
                count == self.messages().len(),
                start <= i <= count,
                out@ == self.messages().subrange(start as int, i as int),
            decreases count - i,
        {
            out.push(self.message_at(i).clone());
            i = i + 1;
            proof {
                assert(out@ =~= self.messages().subrange(start as int, i as int));
            }
        }
        proof {
            assert(out@ =~= self.messages().skip(start as int));
        }
        out
    }

    /// The retained messages in reverse order, starting just past the
    /// cursor when one is given.
    pub fn get_log_messages_reverse(&self, up_to_time_nanos: &Option<Nanos>) -> (r: Vec<
        LogMessage,
    >)
        requires
            self.well_formed(),
        ensures
            r@ == reverse_view(self.messages(), *up_to_time_nanos),
    {
        let count = self.get_count();
        let ghost rev = self.messages().reverse();
        let mut start: usize = 0;
        match up_to_time_nanos {
            Some(t) => {
                while start < count && self.message_at(count - 1 - start).timeNanos >= *t
                    invariant
                        self.well_formed(),
                        count == self.messages().len(),
                        rev == self.messages().reverse(),
                        0 <= start <= count,
                        forall|j: int| 0 <= j < start ==> rev[j].timeNanos >= *t,
                    decreases count - start,
                {
                    start = start + 1;
                }
                proof {
                    lemma_drop_while_ge_is_skip(rev, *t, start as int);
                }
            },
            None => {
                proof {
                    assert(rev.skip(0) =~= rev);
                }
            },
        }
        let mut out: Vec<LogMessage> = Vec::new();
        let mut i: usize = start;
        while i < count
            invariant
                self.well_formed(),
                count == self.messages().len(),
                rev == self.messages().reverse(),
                start <= i <= count,
                out@ == rev.subrange(start as int, i as int),
            decreases count - i,
        {
            out.push(self.message_at(count - 1 - i).clone());
            i = i + 1;
            proof {
                assert(out@ =~= rev.subrange(start as int, i as int));
            }
        }
        proof {
            assert(out@ =~= rev.skip(start as int));
        }
        out
    }
}

} // verus!
