//! State machine of a write stream.
//!
//! The file is created asynchronously, so a stream starts `Waiting`; it
//! becomes `Open` once creation completes and `Closed` after a close that
//! found no write outstanding. Payloads are queued in the order `write` was
//! called, and each write action flushes the oldest one, so the bytes reach
//! the file in enqueue order. Each step runs under the stream's lock; the
//! executor performs the disk write of a flushed payload before it releases
//! that lock.
use std::collections::VecDeque;
use vstd::prelude::*;

verus! {

/// Where the stream's file stands.
#[derive(Clone, Copy, Debug, PartialEq, Eq, Structural)]
pub enum WSFile {
    /// The creation request is enqueued; no handle exists yet.
    Waiting,
    /// The file is open.
    Open,
    /// Terminal.
    Closed,
}

/// Optional script callbacks for the `finish` and `close` events.
pub struct FsWriteStreamCallbacks<C> {
    pub on_close: Option<C>,
    pub on_finish: Option<C>,
}

/// Outcome of a write action.
pub enum WriteStep {
    /// Write these bytes to the file, before the stream is released.
    Write(Vec<u8>),
    /// The file is not open yet: enqueue the write action again.
    Requeue,
}

/// Outcome of a close action.
pub enum CloseStep<C> {
    /// The stream is now closed: invoke these callbacks, in this order.
    Finish(Vec<C>),
    /// Writes are outstanding or the file is not open yet: enqueue the close
    /// action again.
    Requeue,
    /// The stream was closed before: nothing to do.
    AlreadyClosed,
}

/// Concatenation of payloads, in order.
pub open spec fn concat(s: Seq<Seq<u8>>) -> Seq<u8>
    decreases s.len(),
{
    if s.len() == 0 {
        Seq::empty()
    } else {
        concat(s.drop_last()) + s.last()
    }
}

proof fn lemma_concat_take_next(s: Seq<Seq<u8>>, k: int)
    requires
        0 <= k < s.len(),
    ensures
        concat(s.take(k + 1)) == concat(s.take(k)) + s[k],
{
    assert(s.take(k + 1).drop_last() =~= s.take(k));
}

/// The callbacks a close invokes: `finish`, then `close`, each if installed.
pub open spec fn close_callbacks<C>(on_finish: Option<C>, on_close: Option<C>) -> Seq<C> {
    let f = match on_finish {
        Some(c) => seq![c],
        None => Seq::empty(),
    };
    let c = match on_close {
        Some(c) => seq![c],
        None => Seq::empty(),
    };
    f + c
}

/// Which way a close action goes.
#[derive(Clone, Copy, Debug, PartialEq, Eq, Structural)]
pub enum CloseKind {
    Finish,
    Requeue,
    AlreadyClosed,
}

impl<C> CloseStep<C> {
    pub open spec fn kind(self) -> CloseKind {
        match self {
            CloseStep::Finish(_) => CloseKind::Finish,
            CloseStep::Requeue => CloseKind::Requeue,
            CloseStep::AlreadyClosed => CloseKind::AlreadyClosed,
        }
    }
}

/// A close action on a stream in state `s`: which way it goes and the state
/// after it.
pub open spec fn close_spec<C>(s: FsWriteStreamView<C>) -> (CloseKind, FsWriteStreamView<C>) {
    if s.pending() > 0 || s.file == WSFile::Waiting {
        (CloseKind::Requeue, s)
    } else if s.file == WSFile::Closed {
        (CloseKind::AlreadyClosed, s)
    } else {
        (
            CloseKind::Finish,
            FsWriteStreamView { file: WSFile::Closed, on_close: None, on_finish: None, ..s },
        )
    }
}

/// Mathematical state of a stream.
pub struct FsWriteStreamView<C> {
    pub file: WSFile,
    /// Every payload accepted by `write`, in enqueue order.
    pub accepted: Seq<Seq<u8>>,
    /// How many of them were flushed to the file.
    pub flushed: nat,
    pub on_close: Option<C>,
    pub on_finish: Option<C>,
}

impl<C> FsWriteStreamView<C> {
    /// The bytes handed to the file so far.
    pub open spec fn written(self) -> Seq<u8> {
        concat(self.accepted.take(self.flushed as int))
    }

    /// Number of writes not yet flushed.
    pub open spec fn pending(self) -> nat {
        (self.accepted.len() - self.flushed) as nat
    }

    pub open spec fn wf(self) -> bool {
        &&& self.flushed <= self.accepted.len()
        &&& self.file == WSFile::Closed ==> self.pending() == 0
        &&& self.file == WSFile::Waiting ==> self.flushed == 0
    }
}

pub struct FsWriteStream<C> {
    file: WSFile,
    queue: VecDeque<Vec<u8>>,
    callbacks: FsWriteStreamCallbacks<C>,
    accepted: Ghost<Seq<Seq<u8>>>,
    flushed: Ghost<nat>,
}

impl<C> View for FsWriteStream<C> {
    type V = FsWriteStreamView<C>;

    closed spec fn view(&self) -> FsWriteStreamView<C> {
        FsWriteStreamView {
            file: self.file,
            accepted: self.accepted@,
            flushed: self.flushed@,
            on_close: self.callbacks.on_close,
            on_finish: self.callbacks.on_finish,
        }
    }
}

impl<C> FsWriteStream<C> {
    /// The queued payloads are the accepted ones not yet flushed, in order.
    pub closed spec fn queue_matches(&self) -> bool {
        self.queue@.map_values(|v: Vec<u8>| v@) =~= self.accepted@.skip(self.flushed@ as int)
    }

    pub open spec fn wf(&self) -> bool {
        &&& self@.wf()
        &&& self.queue_matches()
    }

    /// A new stream whose file creation has just been requested.
    pub fn make() -> (r: Self)
        ensures
            r.wf(),
            r@.file == WSFile::Waiting,
            r@.accepted == Seq::<Seq<u8>>::empty(),
            r@.flushed == 0,
            r@.on_close.is_none(),
            r@.on_finish.is_none(),
    {
        let r = FsWriteStream {
            file: WSFile::Waiting,
            queue: VecDeque::new(),
            callbacks: FsWriteStreamCallbacks { on_close: None, on_finish: None },
            accepted: Ghost(Seq::empty()),
            flushed: Ghost(0),
        };
        assert(r.queue@.map_values(|v: Vec<u8>| v@) =~= Seq::<Seq<u8>>::empty().skip(0));
        r
    }

    pub fn file(&self) -> (r: WSFile)
        ensures
            r == self@.file,
    {
        self.file
    }

    /// Number of writes not yet flushed.
    pub fn pending_writes(&self) -> (r: usize)
        requires
            self.wf(),
        ensures
            r == self@.pending(),
    {
        self.queue.len()
    }

    /// The file creation completed: `Waiting` becomes `Open`, the only way
    /// into `Open`. In any other state nothing changes.
    pub fn exec_create_file(&mut self)
        requires
            old(self).wf(),
        ensures
            final(self).wf(),
            final(self)@ == (FsWriteStreamView {
                file: if old(self)@.file == WSFile::Waiting {
                    WSFile::Open
                } else {
                    old(self)@.file
                },
                ..old(self)@
            }),
    {
        if self.file == WSFile::Waiting {
            self.file = WSFile::Open;
        }
    }

    /// Queues a payload behind the earlier ones. A closed stream takes no more
    /// writes.
    pub fn write(&mut self, value: Vec<u8>)
        requires
            old(self).wf(),
            old(self)@.file != WSFile::Closed,
        ensures
            final(self).wf(),
            final(self)@ == (FsWriteStreamView {
                accepted: old(self)@.accepted.push(value@),
                ..old(self)@
            }),
    {
        let ghost old_queue = self.queue@;
        let ghost old_accepted = self.accepted@;
        let ghost payload = value@;
        self.queue.push_back(value);
        self.accepted = Ghost(self.accepted@.push(payload));
        proof {
            let f = self.flushed@ as int;
            assert(old_queue.map_values(|v: Vec<u8>| v@) =~= old_accepted.skip(f));
            assert forall|i: int| 0 <= i < self.queue@.len() implies #[trigger] self.queue@[i]@
                == self.accepted@[f + i] by {
                if i < old_queue.len() {
                    assert(old_queue.map_values(|v: Vec<u8>| v@)[i] == old_accepted.skip(f)[i]);
                }
            }
            assert(self.queue@.map_values(|v: Vec<u8>| v@) =~= self.accepted@.skip(f));
        }
    }

    /// A write action. While the file is not open it is enqueued again; once
    /// open, the oldest queued payload is handed out for writing.
    pub fn exec_write_str(&mut self) -> (r: WriteStep)
        requires
            old(self).wf(),
            old(self)@.pending() > 0,
        ensures
            final(self).wf(),
            old(self)@.file == WSFile::Waiting ==> r == WriteStep::Requeue && final(self)@
                == old(self)@,
            old(self)@.file != WSFile::Waiting ==> final(self)@ == (FsWriteStreamView {
                flushed: old(self)@.flushed + 1,
                ..old(self)@
            }) && (r matches WriteStep::Write(b) && b@ == old(self)@.accepted[old(
                self,
            )@.flushed as int] && final(self)@.written() == old(self)@.written() + b@),
    {
        if self.file == WSFile::Waiting {
            return WriteStep::Requeue;
        }
        proof {
            lemma_flush_appends_next(self@);
        }
        let ghost old_queue = self.queue@;
        let ghost k = self.flushed@ as int;
        assert(old_queue.map_values(|v: Vec<u8>| v@) =~= self.accepted@.skip(k));
        assert(old_queue.map_values(|v: Vec<u8>| v@)[0] == self.accepted@.skip(k)[0]);
        match self.queue.pop_front() {
            Some(bytes) => {
                self.flushed = Ghost(self.flushed@ + 1);
                proof {
                    assert forall|i: int| 0 <= i < self.queue@.len() implies #[trigger] self.queue@[
                        i
                    ]@ == self.accepted@[k + 1 + i] by {
                        assert(old_queue.map_values(|v: Vec<u8>| v@)[i + 1] == self.accepted@.skip(
                            k,
                        )[i + 1]);
                    }
                    assert(self.queue@.map_values(|v: Vec<u8>| v@) =~= self.accepted@.skip(k + 1));
                }
                WriteStep::Write(bytes)
            },
            None => WriteStep::Requeue,
        }
    }

    /// Installs the callback of the `finish` or `close` event, replacing an
    /// earlier one; any other event name is ignored.
    pub fn on(&mut self, event: &str, callback: C)
        requires
            old(self).wf(),
        ensures
            final(self).wf(),
            event@ == "close"@ ==> final(self)@ == (FsWriteStreamView {
                on_close: Some(callback),
                ..old(self)@
            }),
            event@ == "finish"@ ==> final(self)@ == (FsWriteStreamView {
                on_finish: Some(callback),
                ..old(self)@
            }),
            event@ != "close"@ && event@ != "finish"@ ==> final(self)@ == old(self)@,
    {
        proof {
            reveal_strlit("close");
            reveal_strlit("finish");
            assert("close"@.len() != "finish"@.len());
        }
        let name = event.to_owned();
        if name == String::from_str("close") {
            self.callbacks.on_close = Some(callback);
        } else if name == String::from_str("finish") {
            self.callbacks.on_finish = Some(callback);
        }
    }

    /// A close action. It closes the stream only once every queued write is
    /// flushed and the file is open, and then hands out the callbacks to
    /// invoke; a second close does nothing.
    pub fn exec_close(&mut self) -> (r: CloseStep<C>)
        requires
            old(self).wf(),
        ensures
            final(self).wf(),
            r.kind() == close_spec(old(self)@).0,
            final(self)@ == close_spec(old(self)@).1,
            r matches CloseStep::Finish(cbs) ==> cbs@ == close_callbacks(
                old(self)@.on_finish,
                old(self)@.on_close,
            ) && final(self)@.written() == concat(final(self)@.accepted),
    {
        if self.queue.len() > 0 {
            return CloseStep::Requeue;
        }
        match self.file {
            WSFile::Waiting => CloseStep::Requeue,
            WSFile::Closed => CloseStep::AlreadyClosed,
            WSFile::Open => {
                self.file = WSFile::Closed;
                let mut cbs: Vec<C> = Vec::new();
                match self.callbacks.on_finish.take() {
                    Some(f) => cbs.push(f),
                    None => {},
                }
                match self.callbacks.on_close.take() {
                    Some(c) => cbs.push(c),
                    None => {},
                }
                proof {
                    lemma_drained_stream_wrote_all(self@);
                }
                CloseStep::Finish(cbs)
            },
        }
    }
}

/// Flushing the next payload appends exactly its bytes to what the file
/// received.
pub proof fn lemma_flush_appends_next<C>(s: FsWriteStreamView<C>)
    requires
        s.wf(),
        s.pending() > 0,
    ensures
        (FsWriteStreamView { flushed: s.flushed + 1, ..s }).written() == s.written()
            + s.accepted[s.flushed as int],
{
    lemma_concat_take_next(s.accepted, s.flushed as int);
}

proof fn lemma_concat_append(a: Seq<Seq<u8>>, b: Seq<Seq<u8>>)
    ensures
        concat(a + b) == concat(a) + concat(b),
    decreases b.len(),
{
    if b.len() == 0 {
        assert(a + b =~= a);
    } else {
        lemma_concat_append(a, b.drop_last());
        assert((a + b).drop_last() =~= a + b.drop_last());
    }
}

/// In every state the file has received the accepted payloads up to the
/// flushed ones, and those still queued follow them: the two together are all
/// payloads, concatenated in enqueue order, with nothing lost or repeated.
pub proof fn lemma_written_then_queued<C>(s: FsWriteStreamView<C>)
    requires
        s.wf(),
    ensures
        s.written() + concat(s.accepted.skip(s.flushed as int)) == concat(s.accepted),
{
    let k = s.flushed as int;
    lemma_concat_append(s.accepted.take(k), s.accepted.skip(k));
    assert(s.accepted.take(k) + s.accepted.skip(k) =~= s.accepted);
}

/// Once no write is pending, open or closed, the file received every accepted
/// payload, concatenated in enqueue order, and nothing else.
pub proof fn lemma_drained_stream_wrote_all<C>(s: FsWriteStreamView<C>)
    requires
        s.wf(),
        s.pending() == 0,
    ensures
        s.written() == concat(s.accepted),
{
    assert(s.accepted.take(s.flushed as int) =~= s.accepted);
}

/// A close that invoked the callbacks leaves a stream on which any later
/// close does nothing: the callbacks fire at most once.
pub proof fn lemma_second_close_is_noop<C>(s: FsWriteStreamView<C>)
    requires
        s.wf(),
        close_spec(s).0 == CloseKind::Finish,
    ensures
        close_spec(close_spec(s).1) == (CloseKind::AlreadyClosed, close_spec(s).1),
{
}

} // verus!
