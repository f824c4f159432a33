//! The bounded, ordered history of pressed keys shown on screen.
use vstd::prelude::*;

use crate::event::{decode, decode_spec, DecodeError, InputEvent, EVENT_SIZE};
use crate::labels::{code_to_char, label_of};

verus! {

/// Capacity of the history shown by the overlay.
pub const DEFAULT_CAPACITY: usize = 20;

/// The last `cap` elements of `cs`, or all of them when there are fewer.
pub open spec fn newest(cs: Seq<u16>, cap: nat) -> Seq<u16> {
    if cs.len() > cap {
        cs.subrange(cs.len() - cap, cs.len() as int)
    } else {
        cs
    }
}

/// The history `s` after `c` is appended to it: the oldest entries go once
/// more than `cap` would be held.
pub open spec fn push_spec(s: Seq<u16>, c: u16, cap: nat) -> Seq<u16> {
    newest(s.push(c), cap)
}

/// The history that appending each of `cs` in turn to an empty history
/// of capacity `cap` leaves.
pub open spec fn pushes(cs: Seq<u16>, cap: nat) -> Seq<u16>
    decreases cs.len(),
{
    if cs.len() == 0 {
        Seq::empty()
    } else {
        push_spec(pushes(cs.drop_last(), cap), cs.last(), cap)
    }
}

/// A first-in, first-out history of key codes that holds at most a fixed
/// number of entries.
pub struct DisplayQueue {
    codes: Vec<u16>,
    capacity: usize,
}

impl View for DisplayQueue {
    type V = Seq<u16>;

    /// The codes held, oldest first.
    closed spec fn view(&self) -> Seq<u16> {
        self.codes@
    }
}

impl DisplayQueue {
    /// The most entries this history holds.
    pub closed spec fn cap(&self) -> nat {
        self.capacity as nat
    }

    /// The history holds no more than its capacity.
    pub closed spec fn wf(&self) -> bool {
        self.codes@.len() <= self.capacity
    }

    /// An empty history that holds at most `capacity` codes.
    pub fn new(capacity: usize) -> (r: DisplayQueue)
        ensures
            r.wf(),
            r@ == Seq::<u16>::empty(),
            r.cap() == capacity,
    {
        DisplayQueue { codes: Vec::new(), capacity }
    }

    /// The most entries this history holds.
    pub fn capacity(&self) -> (r: usize)
        ensures
            r == self.cap(),
    {
        self.capacity
    }

    /// The number of codes held.
    pub fn len(&self) -> (r: usize)
        ensures
            r == self@.len(),
    {
        self.codes.len()
    }

    /// The codes held, oldest first.
    pub fn codes(&self) -> (r: Vec<u16>)
        ensures
            r@ == self@,
    {
        self.codes.clone()
    }

    /// Appends `code`, dropping the oldest entry when the history is full.
    pub fn push(&mut self, code: u16)
        requires
            old(self).wf(),
        ensures
            final(self).wf(),
            final(self).cap() == old(self).cap(),
            final(self)@ == push_spec(old(self)@, code, old(self).cap()),
    {
        let ghost s = self.codes@;
        if self.capacity == 0 {
            assert(push_spec(s, code, 0) =~= Seq::<u16>::empty());
            return;
        }
        if self.codes.len() == self.capacity {
            self.codes.remove(0);
        }
        self.codes.push(code);
        assert(self.codes@ =~= push_spec(s, code, self.capacity as nat));
    }

    /// The labels of the codes held, oldest first.
    pub fn labels(&self) -> (r: Vec<&'static str>)
        ensures
            r@.len() == self@.len(),
            forall|i: int| 0 <= i < r@.len() ==> (#[trigger] r@[i])@ == label_of(self@[i]),
    {
        let mut out: Vec<&'static str> = Vec::new();
        let mut i: usize = 0;
        while i < self.codes.len()
            invariant
                i <= self.codes@.len(),
                out@.len() == i,
                forall|j: int| 0 <= j < i ==> (#[trigger] out@[j])@ == label_of(self.codes@[j]),
            decreases self.codes@.len() - i,
        {
            out.push(code_to_char(self.codes[i]));
            i = i + 1;
        }
        out
    }

    /// Decodes one raw record and appends its key code when the event is
    /// a key press or autorepeat; any other event leaves the history as it
    /// was. Returns whether the code was appended.
    pub fn feed_record(&mut self, bytes: &[u8]) -> (r: Result<bool, DecodeError>)
        requires
            old(self).wf(),
        ensures
            final(self).wf(),
            final(self).cap() == old(self).cap(),
            bytes@.len() < EVENT_SIZE <==> r is Err,
            r is Err ==> r == Err::<bool, DecodeError>(DecodeError::ShortRecord),
            r is Ok ==> r->Ok_0 == decode_spec(bytes@).reportable(),
            r == Ok::<bool, DecodeError>(true) ==> final(self)@ == push_spec(
                old(self)@,
                decode_spec(bytes@).code,
                old(self).cap(),
            ),
            r != Ok::<bool, DecodeError>(true) ==> final(self)@ == old(self)@,
    {
        match decode(bytes) {
            Err(e) => Err(e),
            Ok(ev) => {
                if ev.is_reportable() {
                    self.push(ev.code);
                    Ok(true)
                } else {
                    Ok(false)
                }
            },
        }
    }
}

/// Appending to a history never makes it hold more than its capacity, and
/// of everything appended it keeps exactly the newest entries, in the order
/// they came. In particular, after capacity + 1 appends to an empty history,
/// the first code appended is gone and the others remain in order.
pub proof fn lemma_bounded_fifo(cs: Seq<u16>, cap: nat)
    ensures
        pushes(cs, cap) == newest(cs, cap),
        pushes(cs, cap).len() <= cap,
        cs.len() == cap + 1 ==> pushes(cs, cap) == cs.drop_first(),
    decreases cs.len(),
{
    if cs.len() > 0 {
        let d = cs.drop_last();
        lemma_bounded_fifo(d, cap);
        assert(d.push(cs.last()) =~= cs);
        if d.len() > cap {
            assert(newest(d, cap).push(cs.last()) =~= cs.subrange(cs.len() - 1 - cap, cs.len() as int));
        }
        assert(pushes(cs, cap) =~= newest(cs, cap));
    }
    if cs.len() == cap + 1 {
        assert(newest(cs, cap) =~= cs.drop_first());
    }
}

} // verus!
