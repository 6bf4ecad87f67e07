//! A reader over the read end of a bounded pipe whose write end belongs to a
//! producer running as a task of its own.
//!
//! The caller polls the pipe and the task; this type remembers whether the
//! task's outcome has been taken, tells the caller what to poll, and merges
//! the two polls into what the read reports, so that a failure of the
//! producer is reported exactly once.
use vstd::prelude::*;
use tokio::io::ReadBuf;
use crate::read_buf::{remaining, room_of};
use crate::replay::ReadStatus;

verus! {

/// What a poll of the producer task reported.
#[derive(Clone, Debug)]
pub enum TaskStatus<E, J> {
    /// The task is still running (or was not polled).
    Running,
    /// The producer returned success.
    Succeeded,
    /// The producer returned an explicit failure.
    Failed(E),
    /// The task ended without returning: it was aborted or it panicked.
    Aborted(J),
}

/// What a read of a [`BufferedWriteReader`] reports.
#[derive(Clone, Debug)]
pub enum BridgeStatus<E, J> {
    /// The pipe delivered bytes, or its end was reached.
    Ready,
    /// Nothing yet; the caller is woken when there is progress.
    Pending,
    /// The pipe itself failed.
    Failed(E),
    /// The producer returned this failure.
    ProducerFailed(E),
    /// The producer ended abnormally; reported as a broken pipe.
    ProducerAborted(J),
}

/// What a read must poll.
#[derive(Clone, Debug)]
pub enum PollPlan {
    /// Nothing: the destination has no room, the read is ready with no bytes.
    Skip,
    /// The pipe only: the task's outcome has already been taken.
    PipeOnly,
    /// The pipe, then the task.
    PipeAndTask,
}

pub open spec fn from_pipe<E, J>(pipe: ReadStatus<E>) -> BridgeStatus<E, J> {
    match pipe {
        ReadStatus::Ready => BridgeStatus::Ready,
        ReadStatus::Pending => BridgeStatus::Pending,
        ReadStatus::Failed(e) => BridgeStatus::Failed(e),
    }
}

/// Whether a task poll ends the task.
pub open spec fn ends_task<E, J>(task: TaskStatus<E, J>) -> bool {
    !(task is Running)
}

/// Whether a read reports the producer's failure or abnormal end.
pub open spec fn is_producer_error<E, J>(r: BridgeStatus<E, J>) -> bool {
    r is ProducerFailed || r is ProducerAborted
}

/// What a read reports, given whether the task's outcome was taken before, what
/// the pipe reported (`None`: not polled), and what the task reported. Once
/// taken, the task's outcome is ignored. A failure of the producer takes
/// precedence over what the pipe reported.
pub open spec fn settle_spec<E, J>(
    finished: bool,
    pipe: Option<ReadStatus<E>>,
    task: TaskStatus<E, J>,
) -> BridgeStatus<E, J> {
    match pipe {
        None => BridgeStatus::Ready,
        Some(p) => if finished {
            from_pipe(p)
        } else {
            match task {
                TaskStatus::Failed(e) => BridgeStatus::ProducerFailed(e),
                TaskStatus::Aborted(j) => BridgeStatus::ProducerAborted(j),
                _ => from_pipe(p),
            }
        },
    }
}

/// Whether the task's outcome has been taken after such a read.
pub open spec fn finished_after<E, J>(
    finished: bool,
    pipe: Option<ReadStatus<E>>,
    task: TaskStatus<E, J>,
) -> bool {
    finished || (pipe is Some && ends_task(task))
}

/// One read attempt: what the pipe and the task reported.
pub ghost struct PollEvent<E, J> {
    pub pipe: Option<ReadStatus<E>>,
    pub task: TaskStatus<E, J>,
}

/// How many reads in `events`, starting from `finished`, report a producer error.
pub open spec fn producer_errors<E, J>(finished: bool, events: Seq<PollEvent<E, J>>) -> nat
    decreases events.len(),
{
    if events.len() == 0 {
        0
    } else {
        let ev = events.first();
        let here: nat = if is_producer_error(settle_spec(finished, ev.pipe, ev.task)) {
            1
        } else {
            0
        };
        here + producer_errors(finished_after(finished, ev.pipe, ev.task), events.drop_first())
    }
}

/// Whether some read in `events`, starting from `finished`, polls a task that
/// reports a failure or an abnormal end.
pub open spec fn task_fails_in<E, J>(finished: bool, events: Seq<PollEvent<E, J>>) -> bool
    decreases events.len(),
{
    if events.len() == 0 {
        false
    } else {
        let ev = events.first();
        (!finished && ev.pipe is Some && (ev.task is Failed || ev.task is Aborted))
            || task_fails_in(finished_after(finished, ev.pipe, ev.task), events.drop_first())
    }
}

/// Exactly-once failure surfacing: over any run of reads, the producer's
/// failure (or abnormal end) is reported by exactly one read if the task is
/// seen to fail, and by none otherwise. It is reported by the very read that
/// first sees it, whatever the pipe reported, and a read that sees no failure
/// reports what the pipe reported.
pub proof fn lemma_failure_surfaces_once<E, J>(finished: bool, events: Seq<PollEvent<E, J>>)
    ensures
        producer_errors(finished, events) == (if task_fails_in(finished, events) {
            1nat
        } else {
            0nat
        }),
        finished ==> producer_errors(finished, events) == 0,
    decreases events.len(),
{
    if events.len() > 0 {
        let ev = events.first();
        let f2 = finished_after(finished, ev.pipe, ev.task);
        lemma_failure_surfaces_once(f2, events.drop_first());
        if is_producer_error(settle_spec(finished, ev.pipe, ev.task)) {
            assert(f2);
        }
    }
}

/// The first read that polls a failed task reports that failure, even when
/// the pipe had bytes for it.
pub proof fn lemma_failure_not_lost<E, J>(pipe: ReadStatus<E>, e: E)
    ensures
        settle_spec(false, Some(pipe), TaskStatus::<E, J>::Failed(e))
            == BridgeStatus::<E, J>::ProducerFailed(e),
        finished_after(false, Some(pipe), TaskStatus::<E, J>::Failed(e)),
{
}

/// The reading side of a pipe fed by a producer task: the pipe's read end `P`
/// and the handle `H` of the task that owns its write end.
pub struct BufferedWriteReader<P, H> {
    pipe: P,
    task: H,
    finished: bool,
}

impl<P, H> BufferedWriteReader<P, H> {
    pub closed spec fn pipe(&self) -> P {
        self.pipe
    }

    pub closed spec fn task(&self) -> H {
        self.task
    }

    /// Whether the task's outcome has been taken; its handle is then never polled again.
    pub closed spec fn finished(&self) -> bool {
        self.finished
    }

    /// Pairs the read end of a pipe with the handle of the running producer task.
    pub fn from_parts(pipe: P, task: H) -> (r: Self)
        ensures
            r.pipe() == pipe,
            r.task() == task,
            !r.finished(),
    {
        BufferedWriteReader { pipe, task, finished: false }
    }

    pub fn is_finished(&self) -> (r: bool)
        ensures
            r == self.finished(),
    {
        self.finished
    }

    /// The read end of the pipe, to poll it.
    pub fn pipe_mut(&mut self) -> (r: &mut P)
        ensures
            *r == old(self).pipe(),
            final(self).pipe() == *final(r),
            final(self).task() == old(self).task(),
            final(self).finished() == old(self).finished(),
    {
        &mut self.pipe
    }

    /// The task handle, to poll it.
    pub fn task_mut(&mut self) -> (r: &mut H)
        ensures
            *r == old(self).task(),
            final(self).task() == *final(r),
            final(self).pipe() == old(self).pipe(),
            final(self).finished() == old(self).finished(),
    {
        &mut self.task
    }

    /// What a read into `buf` must poll: nothing when `buf` has no room left,
    /// the task only while its outcome has not been taken.
    pub fn plan(&self, buf: &ReadBuf<'_>) -> (r: PollPlan)
        ensures
            r == (if room_of(*buf) == 0 {
                PollPlan::Skip
            } else if self.finished() {
                PollPlan::PipeOnly
            } else {
                PollPlan::PipeAndTask
            }),
    {
        if remaining(buf) == 0 {
            PollPlan::Skip
        } else if self.finished {
            PollPlan::PipeOnly
        } else {
            PollPlan::PipeAndTask
        }
    }

    /// Merges what the pipe reported (`None`: not polled) and what the task
    /// reported (`Running` when not polled) into what the read reports, and
    /// takes the task's outcome when the task has ended.
    pub fn settle<E, J>(&mut self, pipe: Option<ReadStatus<E>>, task: TaskStatus<E, J>) -> (r:
        BridgeStatus<E, J>)
        ensures
            r == settle_spec(old(self).finished(), pipe, task),
            final(self).finished() == finished_after(old(self).finished(), pipe, task),
            final(self).pipe() == old(self).pipe(),
            final(self).task() == old(self).task(),
    {
        match pipe {
            None => BridgeStatus::Ready,
            Some(p) => {
                let from_pipe = match p {
                    ReadStatus::Ready => BridgeStatus::Ready,
                    ReadStatus::Pending => BridgeStatus::Pending,
                    ReadStatus::Failed(e) => BridgeStatus::Failed(e),
                };
                if self.finished {
                    from_pipe
                } else {
                    match task {
                        TaskStatus::Running => from_pipe,
                        TaskStatus::Succeeded => {
                            self.finished = true;
                            from_pipe
                        },
                        TaskStatus::Failed(e) => {
                            self.finished = true;
                            BridgeStatus::ProducerFailed(e)
                        },
                        TaskStatus::Aborted(j) => {
                            self.finished = true;
                            BridgeStatus::ProducerAborted(j)
                        },
                    }
                }
            },
        }
    }

    pub fn into_parts(self) -> (r: (P, H))
        ensures
            r == (self.pipe(), self.task()),
    {
        (self.pipe, self.task)
    }
}

} // verus!
