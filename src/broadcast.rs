//! A single-slot, overwrite-on-write value broadcaster with one writer and
//! any number of readers, each of which keeps its own "last seen" marker.
//!
//! Waiting is left to the caller: a reader polls with its cursor and, on
//! `Pending`, suspends until the writer signals a change. A new reader's
//! cursor counts the slot's current value as already seen, so its first poll
//! waits for the next publish.

use vstd::prelude::*;

verus! {

/// The shared slot: the current value, how many values were published into
/// it, and whether the writer has gone away.
pub struct BroadcastSlot<T> {
    value: T,
    version: u64,
    closed: bool,
}

/// The mathematical state of a slot.
pub struct SlotState<T> {
    pub value: T,
    pub version: nat,
    pub closed: bool,
}

/// A reader's marker: the slot version that it saw last.
#[derive(Clone, Copy, Debug, PartialEq, Eq, Structural)]
pub struct Cursor {
    seen: u64,
}

/// What a reader finds when it polls the slot.
#[derive(Debug, PartialEq, Eq)]
pub enum NextValue<T> {
    /// A value published after the one the reader saw last.
    Ready(T),
    /// Nothing new yet: wait for the next publish.
    Pending,
    /// Nothing new, and the writer is gone: nothing new will come.
    SourceClosed,
}

impl<T> View for BroadcastSlot<T> {
    type V = SlotState<T>;

    closed spec fn view(&self) -> SlotState<T> {
        SlotState { value: self.value, version: self.version as nat, closed: self.closed }
    }
}

impl View for Cursor {
    type V = nat;

    closed spec fn view(&self) -> nat {
        self.seen as nat
    }
}

/// A fresh slot holding `v`.
pub open spec fn initial_state<T>(v: T) -> SlotState<T> {
    SlotState { value: v, version: 0, closed: false }
}

/// The slot after `v` is published: it holds `v`, and its version moves on.
pub open spec fn published<T>(s: SlotState<T>, v: T) -> SlotState<T> {
    SlotState { value: v, version: s.version + 1, closed: s.closed }
}

/// The slot after each value of `vs` is published, in order.
pub open spec fn published_all<T>(s: SlotState<T>, vs: Seq<T>) -> SlotState<T>
    decreases vs.len(),
{
    if vs.len() == 0 {
        s
    } else {
        published(published_all(s, vs.drop_last()), vs.last())
    }
}

/// What a reader that saw version `seen` last finds in `s`, and the version it
/// has seen afterwards.
pub open spec fn polled<T>(s: SlotState<T>, seen: nat) -> (NextValue<T>, nat) {
    if seen != s.version {
        (NextValue::Ready(s.value), s.version)
    } else if s.closed {
        (NextValue::SourceClosed, seen)
    } else {
        (NextValue::Pending, seen)
    }
}

impl Cursor {
    /// The slot version that this reader saw last.
    pub fn seen(&self) -> (r: u64)
        ensures
            r == self@,
    {
        self.seen
    }
}

impl<T: Copy> BroadcastSlot<T> {
    /// A slot that holds the placeholder `initial`.
    pub fn new(initial: T) -> (r: Self)
        ensures
            r@ == initial_state(initial),
    {
        BroadcastSlot { value: initial, version: 0, closed: false }
    }

    /// The value the slot holds.
    pub fn current(&self) -> (r: T)
        ensures
            r == self@.value,
    {
        self.value
    }

    /// The number of values published into the slot.
    pub fn version(&self) -> (r: u64)
        ensures
            r == self@.version,
    {
        self.version
    }

    /// Whether the writer has gone away.
    pub fn is_closed(&self) -> (r: bool)
        ensures
            r == self@.closed,
    {
        self.closed
    }

    /// Whether one more value can be published: the version counter has room.
    pub fn can_publish(&self) -> (r: bool)
        ensures
            r == (self@.version < u64::MAX),
    {
        self.version < u64::MAX
    }

    /// Overwrites the slot's value; every reader sees a change.
    pub fn publish(&mut self, v: T)
        requires
            old(self)@.version < u64::MAX,
        ensures
            final(self)@ == published(old(self)@, v),
    {
        self.value = v;
        self.version = self.version + 1;
    }

    /// Marks the writer as gone: readers with nothing new are released.
    pub fn close(&mut self)
        ensures
            final(self)@ == (SlotState { closed: true, ..old(self)@ }),
    {
        self.closed = true;
    }

    /// A new reader, which counts the current value as seen.
    pub fn subscribe(&self) -> (r: Cursor)
        ensures
            r@ == self@.version,
    {
        Cursor { seen: self.version }
    }

    /// Looks for a value that `cursor` has not seen; on `Ready` the cursor
    /// moves to the current version, otherwise it stays.
    pub fn poll(&self, cursor: &mut Cursor) -> (r: NextValue<T>)
        ensures
            (r, final(cursor)@) == polled(self@, old(cursor)@),
    {
        if cursor.seen != self.version {
            cursor.seen = self.version;
            NextValue::Ready(self.value)
        } else if self.closed {
            NextValue::SourceClosed
        } else {
            NextValue::Pending
        }
    }
}

/// Publishing one or more values and then polling with a cursor that saw
/// the slot before them gives the last of them only.
pub proof fn lemma_reader_sees_latest<T>(s: SlotState<T>, vs: Seq<T>)
    requires
        vs.len() > 0,
    ensures
        published_all(s, vs).version == s.version + vs.len(),
        polled(published_all(s, vs), s.version).0 == NextValue::Ready(vs.last()),
    decreases vs.len(),
{
    if vs.len() > 1 {
        lemma_reader_sees_latest(s, vs.drop_last());
    } else {
        assert(published_all(s, vs.drop_last()) == s);
    }
}

/// Two readers that both wait on the slot both receive the value of the
/// next publish.
pub proof fn lemma_waiting_readers_share<T>(s: SlotState<T>, a: nat, b: nat, v: T)
    requires
        polled(s, a).0 == NextValue::<T>::Pending,
        polled(s, b).0 == NextValue::<T>::Pending,
    ensures
        polled(published(s, v), a).0 == NextValue::Ready(v),
        polled(published(s, v), b).0 == NextValue::Ready(v),
        polled(published(s, v), a).1 == polled(published(s, v), b).1,
{
}

} // verus!
