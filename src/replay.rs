//! A reader that can record what it reads and hand the recorded bytes out again.
//!
//! The wrapped stream is polled by the caller; this type holds the recording
//! state and decides, for each read, what comes from the recording, whether
//! the wrapped stream must be polled, and what the read reports.
use vstd::prelude::*;
use vstd::slice::slice_subrange;
use tokio::io::ReadBuf;
use crate::read_buf::{capacity_of, filled, filled_of, put_slice, remaining, room_of};

verus! {

/// What a single poll of a byte stream reported.
#[derive(Clone, Debug)]
pub enum ReadStatus<E> {
    /// The read completed; the bytes it delivered (possibly none, at end of stream)
    /// were placed in the destination.
    Ready,
    /// No data could be delivered yet; the caller is woken when there is progress.
    Pending,
    /// The stream failed.
    Failed(E),
}

/// The abstract state of a [`BackTrackingReader`]: the recorded bytes, how far
/// the replay has got into them, and whether recording is on.
pub ghost struct ReplayState {
    pub buffer: Seq<u8>,
    pub position: nat,
    pub buffering: bool,
}

impl ReplayState {
    /// The state of a freshly wrapped stream: nothing recorded, not recording.
    pub open spec fn initial() -> ReplayState {
        ReplayState { buffer: Seq::empty(), position: 0, buffering: false }
    }

    pub open spec fn wf(self) -> bool {
        self.position <= self.buffer.len()
    }

    /// Recording from scratch.
    pub open spec fn started(self) -> ReplayState {
        ReplayState { buffer: Seq::empty(), position: 0, buffering: true }
    }

    /// Everything recorded is forgotten; plain pass-through.
    pub open spec fn stopped(self) -> ReplayState {
        ReplayState { buffer: Seq::empty(), position: 0, buffering: false }
    }

    /// Recording stops and the recorded bytes become readable again.
    pub open spec fn rewound(self) -> ReplayState {
        ReplayState { buffering: false, ..self }
    }

    /// The recorded bytes that later reads will be served before the wrapped stream.
    pub open spec fn unread(self) -> Seq<u8> {
        if self.buffering {
            Seq::empty()
        } else {
            self.buffer.subrange(self.position as int, self.buffer.len() as int)
        }
    }

    /// How many recorded bytes a read with room for `room` bytes takes.
    pub open spec fn replay_len(self, room: nat) -> nat {
        if room < self.unread().len() {
            room
        } else {
            self.unread().len()
        }
    }

    /// The recorded bytes a read with room for `room` bytes is served.
    pub open spec fn replayed(self, room: nat) -> Seq<u8> {
        self.unread().take(self.replay_len(room) as int)
    }

    pub open spec fn after_replay(self, room: nat) -> ReplayState {
        ReplayState { position: self.position + self.replay_len(room), ..self }
    }

    /// The state after the wrapped stream delivered `fresh` to a read.
    pub open spec fn recorded(self, fresh: Seq<u8>) -> ReplayState {
        if self.buffering {
            ReplayState { buffer: self.buffer + fresh, ..self }
        } else {
            self
        }
    }

    /// The state after the wrapped stream delivered each of `chunks` in turn.
    pub open spec fn recorded_all(self, chunks: Seq<Seq<u8>>) -> ReplayState
        decreases chunks.len(),
    {
        if chunks.len() == 0 {
            self
        } else {
            self.recorded(chunks.first()).recorded_all(chunks.drop_first())
        }
    }
}

/// What a read does once the wrapped stream has been polled (`Some`) or, when
/// the recording filled the destination, without polling it (`None`).
pub open spec fn read_outcome<E>(
    buffering: bool,
    replayed: nat,
    inner: Option<ReadStatus<E>>,
) -> ReadStatus<E> {
    match inner {
        None => ReadStatus::Ready,
        Some(ReadStatus::Pending) => if !buffering && replayed > 0 {
            ReadStatus::Ready
        } else {
            ReadStatus::Pending
        },
        Some(status) => status,
    }
}

/// While recording, the chunks the wrapped stream delivers are appended to the
/// recording one after another, in order.
pub proof fn lemma_recorded_all(s: ReplayState, chunks: Seq<Seq<u8>>)
    requires
        s.buffering,
    ensures
        s.recorded_all(chunks) == (ReplayState { buffer: s.buffer + chunks.flatten(), ..s }),
    decreases chunks.len(),
{
    if chunks.len() == 0 {
        assert(s.buffer + chunks.flatten() =~= s.buffer);
    } else {
        let t = s.recorded(chunks.first());
        lemma_recorded_all(t, chunks.drop_first());
        assert(t.buffer + chunks.drop_first().flatten() =~= s.buffer + chunks.flatten());
    }
}

/// Replay fidelity: once recording has started and the wrapped stream has
/// delivered `chunks`, a rewind makes exactly those bytes, in the same order,
/// the next ones read. A read with room for `room` bytes gets the first `room`
/// of them, and `replay` asks for the wrapped stream only once all of them
/// have been served.
pub proof fn lemma_replay_fidelity(s: ReplayState, chunks: Seq<Seq<u8>>, room: nat)
    ensures
        s.started().recorded_all(chunks).rewound().wf(),
        s.started().recorded_all(chunks).rewound().unread() == chunks.flatten(),
        s.started().recorded_all(chunks).rewound().replayed(room) == chunks.flatten().take(
            if room < chunks.flatten().len() {
                room as int
            } else {
                chunks.flatten().len() as int
            },
        ),
{
    let s0 = s.started();
    lemma_recorded_all(s0, chunks);
    let t = s0.recorded_all(chunks).rewound();
    assert(s0.buffer + chunks.flatten() =~= chunks.flatten());
    assert(t.unread() =~= chunks.flatten());
}

/// Reads of any sizes take the recorded bytes in order: a read with room `a`
/// followed by one with room `b` gets, together, what a single read with room
/// `a + b` gets, and leaves the same state.
pub proof fn lemma_replay_in_pieces(s: ReplayState, a: nat, b: nat)
    requires
        s.wf(),
    ensures
        s.after_replay(a).wf(),
        s.replayed(a) + s.after_replay(a).replayed(b) == s.replayed(a + b),
        s.after_replay(a).after_replay(b) == s.after_replay(a + b),
{
    let u = s.unread();
    let k = s.replay_len(a);
    let t = s.after_replay(a);
    if !s.buffering {
        assert(t.unread() =~= u.subrange(k as int, u.len() as int));
    }
    assert(s.replayed(a) + t.replayed(b) =~= s.replayed(a + b));
}

/// Forget on stop: after `stop_buffering` a rewind brings nothing back. The
/// reader is in the state of one that never recorded, a read is served no
/// recorded bytes, and what the wrapped stream delivers is not recorded.
pub proof fn lemma_forget_on_stop(s: ReplayState, room: nat, fresh: Seq<u8>)
    ensures
        s.stopped().rewound() == ReplayState::initial(),
        s.stopped().rewound().replayed(room) == Seq::<u8>::empty(),
        s.stopped().recorded(fresh).rewound() == ReplayState::initial(),
{
    assert(ReplayState::initial().replayed(room) =~= Seq::<u8>::empty());
}

/// The first half of a read: how many recorded bytes were served, and
/// whether the wrapped stream must now be polled for the rest of the room.
pub struct Replayed {
    pub count: usize,
    pub poll_inner: bool,
}

/// A stream wrapper that can record the bytes read through it and replay them.
pub struct BackTrackingReader<T> {
    reader: T,
    buffer: Vec<u8>,
    position: usize,
    buffering: bool,
}

impl<T> View for BackTrackingReader<T> {
    type V = ReplayState;

    closed spec fn view(&self) -> ReplayState {
        ReplayState {
            buffer: self.buffer@,
            position: self.position as nat,
            buffering: self.buffering,
        }
    }
}

impl<T> BackTrackingReader<T> {
    /// The wrapped stream.
    pub closed spec fn inner(&self) -> T {
        self.reader
    }

    pub fn new(reader: T) -> (r: Self)
        ensures
            r@ == ReplayState::initial(),
            r@.wf(),
            r.inner() == reader,
    {
        BackTrackingReader { reader, buffer: Vec::new(), position: 0, buffering: false }
    }

    /// Discards any recording and starts recording afresh.
    pub fn start_buffering(&mut self)
        ensures
            final(self)@ == old(self)@.started(),
            final(self)@.wf(),
            final(self).inner() == old(self).inner(),
    {
        self.position = 0;
        self.buffer.clear();
        self.buffering = true;
    }

    /// Discards any recording and goes back to plain pass-through.
    pub fn stop_buffering(&mut self)
        ensures
            final(self)@ == old(self)@.stopped(),
            final(self)@.wf(),
            final(self).inner() == old(self).inner(),
    {
        self.position = 0;
        self.buffer.clear();
        self.buffering = false;
    }

    /// Stops recording; the recorded bytes not yet replayed are served to the next reads.
    pub fn rewind(&mut self)
        ensures
            final(self)@ == old(self)@.rewound(),
            old(self)@.wf() ==> final(self)@.wf(),
            final(self).inner() == old(self).inner(),
    {
        self.buffering = false;
    }

    /// Gives back the wrapped stream.
    pub fn unwrap(self) -> (r: T)
        ensures
            r == self.inner(),
    {
        self.reader
    }

    pub fn get_ref(&self) -> (r: &T)
        ensures
            *r == self.inner(),
    {
        &self.reader
    }

    /// Access to the wrapped stream, to poll it; the recording is untouched.
    pub fn get_mut(&mut self) -> (r: &mut T)
        ensures
            *r == old(self).inner(),
            final(self).inner() == *final(r),
            final(self)@ == old(self)@,
    {
        &mut self.reader
    }

    /// How many bytes the recording holds.
    pub fn buffered_len(&self) -> (r: usize)
        ensures
            r == self@.buffer.len(),
    {
        self.buffer.len()
    }

    pub fn is_buffering(&self) -> (r: bool)
        ensures
            r == self@.buffering,
    {
        self.buffering
    }

    /// First half of a read into `buf`. While replaying, the unread recorded
    /// bytes are put into `buf` first, as many as fit. The wrapped stream is to
    /// be polled next only while recording, or when room is left once the
    /// recording is used up.
    pub fn replay(&mut self, buf: &mut ReadBuf<'_>) -> (r: Replayed)
        requires
            old(self)@.wf(),
        ensures
            filled_of(*final(buf)) == filled_of(*old(buf)) + old(self)@.replayed(
                room_of(*old(buf)),
            ),
            capacity_of(*final(buf)) == capacity_of(*old(buf)),
            r.count == old(self)@.replay_len(room_of(*old(buf))),
            final(self)@ == old(self)@.after_replay(room_of(*old(buf))),
            final(self)@.wf(),
            r.poll_inner == (old(self)@.buffering || r.count < room_of(*old(buf))),
            r.poll_inner && !old(self)@.buffering ==> old(self)@.replayed(room_of(*old(buf)))
                == old(self)@.unread(),
            final(self).inner() == old(self).inner(),
    {
        let room = remaining(buf);
        if self.buffering {
            return Replayed { count: 0, poll_inner: true };
        }
        let len: usize = self.buffer.len();
        let available: usize = len - self.position;
        let take: usize = if room < available {
            room
        } else {
            available
        };
        let start: usize = self.position;
        let bytes = slice_subrange(self.buffer.as_slice(), start, start + take);
        put_slice(buf, bytes);
        self.position = start + take;
        proof {
            assert(bytes@ =~= old(self)@.replayed(room as nat));
        }
        Replayed { count: take, poll_inner: take < room }
    }

    /// Second half of a read into `buf`. `replayed` is how many recorded bytes
    /// the first half served, `since` how much of `buf` was filled when the
    /// wrapped stream was polled, and `inner` what that poll reported (`None`
    /// when it was not polled). While recording, what the wrapped stream put
    /// into `buf` is appended to the recording. A read that was served recorded
    /// bytes is ready even when the wrapped stream is pending.
    pub fn finish_read<E>(
        &mut self,
        replayed: usize,
        since: usize,
        buf: &ReadBuf<'_>,
        inner: Option<ReadStatus<E>>,
    ) -> (r: ReadStatus<E>)
        requires
            old(self)@.wf(),
            since <= filled_of(*buf).len(),
            old(self)@.buffer.len() + (filled_of(*buf).len() - since) <= usize::MAX,
        ensures
            final(self)@ == old(self)@.recorded(
                filled_of(*buf).subrange(since as int, filled_of(*buf).len() as int),
            ),
            final(self)@.wf(),
            r == read_outcome(old(self)@.buffering, replayed as nat, inner),
            !old(self)@.buffering && replayed > 0 && inner == Some(ReadStatus::<E>::Pending)
                ==> r == ReadStatus::<E>::Ready,
            final(self).inner() == old(self).inner(),
    {
        if self.buffering {
            let all = filled(buf);
            let fresh = slice_subrange(all, since, all.len());
            self.buffer.extend_from_slice(fresh);
            proof {
                assert(self.buffer@ =~= old(self).buffer@ + fresh@);
            }
        }
        match inner {
            None => ReadStatus::Ready,
            Some(ReadStatus::Pending) => {
                if !self.buffering && replayed > 0 {
                    ReadStatus::Ready
                } else {
                    ReadStatus::Pending
                }
            },
            Some(status) => status,
        }
    }
}

} // verus!
