use vstd::prelude::*;

use crate::model::{views, EventView, InboundEvent};

verus! {

/// A reader's position in an [`EventStream`]: the number of events published
/// before the ones it has yet to read.
#[derive(Debug)]
pub struct ReadCursor {
    pos: usize,
}

impl ReadCursor {
    /// How many events of the stream lie before this reader.
    pub closed spec fn position(&self) -> nat {
        self.pos as nat
    }
}

/// The ordered log of inbound events, read through independent cursors.
///
/// Publishing appends to the log, and reading never removes from it, so each
/// cursor is handed every event published after it was registered, once.
/// Events that every reader has passed can be discarded to free memory; the
/// log keeps counting them.
pub struct EventStream {
    retained: Vec<InboundEvent>,
    first: usize,
    history: Ghost<Seq<EventView>>,
}

impl EventStream {
    /// The events kept in memory are the tail of the log after the discarded
    /// ones, and the log's length fits in a `usize`.
    pub closed spec fn wf(&self) -> bool {
        &&& self.first + self.retained@.len() == self.history@.len()
        &&& self.history@.len() <= usize::MAX
        &&& views(self.retained@) == self.history@.subrange(
            self.first as int,
            self.history@.len() as int,
        )
    }

    /// Every event published so far, oldest first.
    pub closed spec fn log(&self) -> Seq<EventView> {
        self.history@
    }

    /// How many of the oldest events were discarded.
    pub closed spec fn discarded(&self) -> nat {
        self.first as nat
    }

    /// Whether this stream is `earlier` with zero or more events published
    /// after it.
    pub open spec fn extends(&self, earlier: EventStream) -> bool {
        &&& earlier.log().len() <= self.log().len()
        &&& self.log().subrange(0, earlier.log().len() as int) == earlier.log()
    }

    /// What a read through `cursor` hands out now: the events from its
    /// position on that are still kept, or nothing where the position lies
    /// past the end.
    pub open spec fn pending(&self, cursor: ReadCursor) -> Seq<EventView> {
        if cursor.position() > self.log().len() {
            Seq::empty()
        } else if cursor.position() < self.discarded() {
            self.log().subrange(self.discarded() as int, self.log().len() as int)
        } else {
            self.log().subrange(cursor.position() as int, self.log().len() as int)
        }
    }

    /// An empty stream.
    pub fn new() -> (r: EventStream)
        ensures
            r.wf(),
            r.log() == Seq::<EventView>::empty(),
            r.discarded() == 0,
    {
        let r = EventStream { retained: Vec::new(), first: 0, history: Ghost(Seq::empty()) };
        proof {
            assert(views(r.retained@) =~= r.history@.subrange(0, 0));
        }
        r
    }

    /// The number of events published so far.
    pub fn len(&self) -> (r: usize)
        requires
            self.wf(),
        ensures
            r == self.log().len(),
    {
        self.first + self.retained.len()
    }

    /// Appends `event` to the log.
    pub fn publish(&mut self, event: InboundEvent)
        requires
            old(self).wf(),
            old(self).log().len() < usize::MAX,
        ensures
            final(self).wf(),
            final(self).log() == old(self).log().push(event@),
            final(self).discarded() == old(self).discarded(),
            final(self).extends(*old(self)),
    {
        let ghost ev = event@;
        let ghost prev = self.retained@;
        self.retained.push(event);
        self.history = Ghost(self.history@.push(ev));
        proof {
            let h = self.history@;
            assert(views(self.retained@) =~= views(prev).push(ev));
            assert(views(self.retained@) =~= h.subrange(self.first as int, h.len() as int));
            assert(h.subrange(0, old(self).log().len() as int) =~= old(self).log());
        }
    }

    /// A new reader placed at the end of the log: it is handed only events
    /// published after this call.
    pub fn register_reader(&self) -> (r: ReadCursor)
        requires
            self.wf(),
        ensures
            r.position() == self.log().len(),
            self.pending(r) == Seq::<EventView>::empty(),
    {
        let r = ReadCursor { pos: self.first + self.retained.len() };
        proof {
            assert(self.pending(r) =~= Seq::<EventView>::empty());
        }
        r
    }

    /// Hands out the events that `cursor` has not read, in the order they
    /// were published, and moves the cursor to the end of the log.
    ///
    /// Events that were discarded before the reader reached them are skipped.
    /// A cursor whose position lies past the end of this stream reads nothing
    /// and stays where it is.
    pub fn read(&self, cursor: &mut ReadCursor) -> (r: Vec<InboundEvent>)
        requires
            self.wf(),
        ensures
            views(r@) == self.pending(*old(cursor)),
            old(cursor).position() <= self.log().len()
                ==> final(cursor).position() == self.log().len(),
            old(cursor).position() > self.log().len() ==> *final(cursor) == *old(cursor),
    {
        let mut out: Vec<InboundEvent> = Vec::new();
        let total = self.first + self.retained.len();
        if cursor.pos > total {
            proof {
                assert(views(out@) =~= self.pending(*old(cursor)));
            }
            return out;
        }
        let start: usize = if cursor.pos < self.first {
            0
        } else {
            cursor.pos - self.first
        };
        let ghost from = self.first + start;
        let mut i: usize = start;
        while i < self.retained.len()
            invariant
                self.wf(),
                start <= i <= self.retained@.len(),
                from == self.first + start,
                views(out@) == self.log().subrange(from, self.first + i),
            decreases self.retained@.len() - i,
        {
            let e = self.retained[i].duplicate();
            let ghost prev = out@;
            out.push(e);
            proof {
                assert(views(self.retained@)[i as int] == self.retained@[i as int]@);
                assert(views(out@) =~= views(prev).push(e@));
                assert(views(out@) =~= self.log().subrange(from, self.first + i + 1));
            }
            i = i + 1;
        }
        cursor.pos = total;
        proof {
            assert(views(out@) =~= self.pending(*old(cursor)));
        }
        out
    }

    /// Frees the events that lie before `cursor`, and none after it; the log
    /// is unchanged.
    ///
    /// Where other readers share the stream, call this with the one furthest
    /// behind: a reader is never handed an event once it was discarded.
    pub fn discard_before(&mut self, cursor: &ReadCursor)
        requires
            old(self).wf(),
        ensures
            final(self).wf(),
            final(self).log() == old(self).log(),
            cursor.position() <= old(self).discarded() ==> final(self).discarded()
                == old(self).discarded(),
            old(self).discarded() < cursor.position() <= old(self).log().len()
                ==> final(self).discarded() == cursor.position(),
            cursor.position() > old(self).log().len() ==> final(self).discarded()
                == old(self).discarded(),
    {
        let total = self.first + self.retained.len();
        if self.first < cursor.pos && cursor.pos <= total {
            let n: usize = cursor.pos - self.first;
            let ghost before = self.retained@;
            let kept = self.retained.split_off(n);
            self.retained = kept;
            self.first = cursor.pos;
            proof {
                let h = self.history@;
                assert(self.retained@ == before.subrange(n as int, before.len() as int));
                assert(views(self.retained@) =~= views(before).subrange(n as int, before.len() as int));
                assert(views(self.retained@) =~= h.subrange(self.first as int, h.len() as int));
            }
        }
    }
}

/// A reader that has read to the end of the stream is handed nothing more
/// until events are published, and then exactly those: a drain never hands
/// out an event a second time.
pub proof fn lemma_drain_again(before: EventStream, after: EventStream, reader: ReadCursor)
    requires
        reader.position() == before.log().len(),
        after.extends(before),
        before.discarded() <= reader.position(),
        after.discarded() <= reader.position(),
    ensures
        before.pending(reader) == Seq::<EventView>::empty(),
        after.pending(reader) == after.log().subrange(
            before.log().len() as int,
            after.log().len() as int,
        ),
{
    assert(before.pending(reader) =~= Seq::<EventView>::empty());
}

/// Two readers registered at the same point of a stream are each handed every
/// event published since then, once and in order, whatever the other reads.
///
/// Reader `a` reads once when the stream has grown to `mid` (moving to
/// `a_next`) and again at `last`; reader `b` reads only at `last`. Both are
/// handed the same events, and those are all that was published after
/// `start`, provided none of them was discarded.
pub proof fn lemma_readers_independent(
    start: EventStream,
    mid: EventStream,
    last: EventStream,
    a: ReadCursor,
    a_next: ReadCursor,
    b: ReadCursor,
)
    requires
        mid.extends(start),
        last.extends(mid),
        mid.discarded() <= start.log().len(),
        last.discarded() <= start.log().len(),
        a.position() == start.log().len(),
        b.position() == start.log().len(),
        a_next.position() == mid.log().len(),
    ensures
        mid.pending(a) + last.pending(a_next) == last.pending(b),
        last.pending(b) == last.log().subrange(
            start.log().len() as int,
            last.log().len() as int,
        ),
{
    let s0 = start.log().len() as int;
    let s1 = mid.log().len() as int;
    let s2 = last.log().len() as int;
    assert(mid.log() =~= last.log().subrange(0, s1));
    assert(mid.pending(a) =~= last.log().subrange(s0, s1));
    assert(mid.pending(a) + last.pending(a_next) =~= last.log().subrange(s0, s2));
}

} // verus!
