//! The per-job runtime state machine: a `Work` binds an entry to its
//! trigger cursor, lifecycle status and the processes it has spawned, and
//! `start` / `stop` / `restart` are its only transitions.
//!
//! Spawning and killing OS processes cannot happen here; instead `start`
//! reports whether a process must now be spawned for the entry's action,
//! and `stop` hands back the processes that must now be killed. The
//! surrounding binary performs those effects and records their results.

use vstd::prelude::*;

use crate::entry::{Action, Entry, EntryV, Status, Timer, Trigger, TriggerState};
use crate::time::{calendar_in_range, duration_offset, ts_in_chrono_range, DateTime};

verus! {

/// One spawned OS process tracked by a `Work`.
#[derive(Debug, PartialEq)]
pub struct Process {
    pub pid: i32,
    pub output_tmp_file: Option<String>,
}

impl Clone for Process {
    fn clone(&self) -> (r: Self)
        ensures
            r == *self,
    {
        Process { pid: self.pid, output_tmp_file: crate::entry::clone_opt_string(&self.output_tmp_file) }
    }
}

/// Why a `start` transition was refused. Scheduling-policy violations and
/// time-arithmetic failures leave the job's state unchanged.
#[derive(Clone, Copy, Debug, PartialEq, Eq, Structural)]
pub enum WorkError {
    /// Advancing the due time landed outside the representable range.
    InvalidTime,
    /// A `Once` timer was asked to fire a second time.
    ExecutedTwice,
    /// A `ManyTimes` timer was asked to fire beyond its bound.
    ExceededTimes,
    /// A `Never` timer was asked to fire at all.
    NeverTimer,
}

impl WorkError {
    /// A short description of the failure, for logs and responses.
    pub fn describe(&self) -> (r: &'static str)
        ensures
            r@ == describe_spec(*self),
    {
        match self {
            WorkError::InvalidTime => "Error: Invalid time",
            WorkError::ExecutedTwice => "Error: Entry with Once timer executed twice!",
            WorkError::ExceededTimes => "Error: Entry with ManyTimes timer executed exceeded times!",
            WorkError::NeverTimer => "Error: Entry with a Never Timer executed!",
        }
    }
}

/// The description each failure carries.
pub open spec fn describe_spec(e: WorkError) -> Seq<char> {
    match e {
        WorkError::InvalidTime => "Error: Invalid time"@,
        WorkError::ExecutedTwice => "Error: Entry with Once timer executed twice!"@,
        WorkError::ExceededTimes => "Error: Entry with ManyTimes timer executed exceeded times!"@,
        WorkError::NeverTimer => "Error: Entry with a Never Timer executed!"@,
    }
}

/// The runtime instance of one enabled entry.
#[derive(Debug)]
pub struct Work {
    pub status: Status,
    pub entry: Entry,
    pub trigger_state: TriggerState,
    pub running_processes: Vec<Process>,
}

/// The mathematical value of a `Work`: its process list as a sequence.
pub ghost struct WorkV {
    pub status: Status,
    pub entry: EntryV,
    pub trigger_state: TriggerState,
    pub running_processes: Seq<Process>,
}

impl View for Work {
    type V = WorkV;

    open spec fn view(&self) -> WorkV {
        WorkV {
            status: self.status,
            entry: self.entry@,
            trigger_state: self.trigger_state,
            running_processes: self.running_processes@,
        }
    }
}

impl Work {
    /// A well-formed work has a due time on its cursor whenever its timer
    /// still advances one: always for a repeating timer, and below the
    /// bound for a counted one — at or above the bound the exceeded-times
    /// answer is owed without reading the cursor. That cursor is what
    /// `TriggerState::from_entry` establishes when the advance succeeds,
    /// and what `start` consumes.
    pub open spec fn wf(self) -> bool {
        match self.entry.trigger {
            Trigger::Timer(timer) => match timer {
                Timer::Repeat(_) => self.trigger_state.exec_time is Some,
                Timer::ManyTimes(_, n) => self.trigger_state.exec_times < n
                    ==> self.trigger_state.exec_time is Some,
                _ => true,
            },
            Trigger::Nothing => true,
        }
    }

    /// Builds the runtime instance for an enabled entry: its stored status,
    /// a fresh trigger cursor derived at `now`, and no processes yet.
    pub fn from_entry_at(entry: Entry, now: &DateTime) -> (r: Work)
        ensures
            r.status == entry.status,
            r.entry == entry,
            r.running_processes@ == Seq::<Process>::empty(),
            r.trigger_state.exec_times == 0,
            match entry.trigger {
                Trigger::Timer(timer) => match timer {
                    Timer::Repeat(d) => crate::entry::advanced_from(*now, d, r.trigger_state.exec_time),
                    Timer::ManyTimes(d, _n) => crate::entry::advanced_from(*now, d, r.trigger_state.exec_time),
                    Timer::Once(dt) => r.trigger_state.exec_time == Some(dt),
                    Timer::Never => r.trigger_state.exec_time is None,
                },
                Trigger::Nothing => r.trigger_state.exec_time is None,
            },
    {
        let trigger_state = TriggerState::from_entry_at(&entry, now);
        Work { status: entry.status, entry, trigger_state, running_processes: Vec::new() }
    }

    /// The `start` transition. It dispatches on the entry's trigger,
    /// advances the trigger cursor, and answers whether the caller must
    /// now spawn the entry's action (`Ok(true)`): the spawn itself is the
    /// caller's effect, and only `record_spawn`, fed its outcome, marks
    /// the job running — except a one-shot firing, which pauses itself
    /// here. Policy violations (`Once` fired twice, `ManyTimes` exhausted,
    /// `Never` fired) and due-time advances that leave the representable
    /// range fail and leave the state unchanged, as does an entry with no
    /// action or with an action but no trigger (which spawns nothing).
    pub fn start(&mut self) -> (r: Result<bool, WorkError>)
        requires
            old(self).wf(),
            old(self).trigger_state.exec_times < u32::MAX,
        ensures
            final(self).entry == old(self).entry,
            final(self).running_processes == old(self).running_processes,
            final(self).wf(),
            final(self).trigger_state.exec_times >= old(self).trigger_state.exec_times,
            start_rel(old(self)@, final(self)@, r),
    {
        match &self.entry.action {
            Action::Exec(_execute) => {
                match &self.entry.trigger {
                    Trigger::Timer(timer) => match *timer {
                        Timer::Repeat(d) => {
                            let prev = match &self.trigger_state.exec_time {
                                Some(t) => *t,
                                None => {
                                    proof {
                                        assert(false);
                                    }
                                    return Err(WorkError::InvalidTime);
                                },
                            };
                            match DateTime::advance_instant(&prev, &d) {
                                Some(next) => {
                                    self.trigger_state.exec_time = Some(next);
                                    self.trigger_state.exec_times = self.trigger_state.exec_times
                                        + 1;
                                    Ok(true)
                                },
                                None => Err(WorkError::InvalidTime),
                            }
                        },
                        Timer::Once(_) => {
                            if self.trigger_state.exec_times >= 1 {
                                return Err(WorkError::ExecutedTwice);
                            }
                            self.trigger_state.exec_times = self.trigger_state.exec_times + 1;
                            self.status = Status::Paused;
                            Ok(true)
                        },
                        Timer::ManyTimes(d, times) => {
                            if self.trigger_state.exec_times >= times {
                                return Err(WorkError::ExceededTimes);
                            }
                            let prev = match &self.trigger_state.exec_time {
                                Some(t) => *t,
                                None => {
                                    proof {
                                        assert(false);
                                    }
                                    return Err(WorkError::InvalidTime);
                                },
                            };
                            match DateTime::advance_instant(&prev, &d) {
                                Some(next) => {
                                    self.trigger_state.exec_time = Some(next);
                                    self.trigger_state.exec_times = self.trigger_state.exec_times
                                        + 1;
                                    Ok(true)
                                },
                                None => Err(WorkError::InvalidTime),
                            }
                        },
                        Timer::Never => Err(WorkError::NeverTimer),
                    },
                    Trigger::Nothing => Ok(false),
                }
            },
            Action::Nothing => Ok(false),
        }
    }

    /// The `stop` transition: for an entry with an action it pauses the job
    /// and hands back every tracked process, which the caller must now
    /// kill (best-effort); for an entry without one it does nothing.
    pub fn stop(&mut self) -> (r: Vec<Process>)
        ensures
            final(self)@ == stop_post(old(self)@),
            r@ == stop_removed(old(self)@),
            final(self).entry == old(self).entry,
            final(self).trigger_state == old(self).trigger_state,
    {
        match &self.entry.action {
            Action::Exec(_execute) => {
                let mut drained: Vec<Process> = Vec::new();
                core::mem::swap(&mut drained, &mut self.running_processes);
                self.status = Status::Paused;
                drained
            },
            Action::Nothing => Vec::new(),
        }
    }

    /// The `restart` transition: `stop`, then `start`. The processes to
    /// kill and the spawn decision are both handed back.
    pub fn restart(&mut self) -> (r: (Vec<Process>, Result<bool, WorkError>))
        requires
            old(self).wf(),
            old(self).trigger_state.exec_times < u32::MAX,
        ensures
            r.0@ == stop_removed(old(self)@),
            start_rel(stop_post(old(self)@), final(self)@, r.1),
            final(self).entry == old(self).entry,
            final(self).wf(),
    {
        let removed = self.stop();
        let started = self.start();
        (removed, started)
    }

    /// Records a successful spawn of the entry's action, after a firing
    /// answered `Ok(true)`: the new process is tracked and the job is
    /// marked running — except a one-shot job, which stays paused after
    /// its single firing. A spawn that failed is simply never recorded:
    /// the cursor keeps its advance (the firing was consumed) and the
    /// status keeps whatever the firing left, exactly the state a firing
    /// whose process never came up should show.
    pub fn record_spawn(&mut self, pid: i32)
        ensures
            final(self).entry == old(self).entry,
            final(self).trigger_state == old(self).trigger_state,
            final(self).running_processes@ == old(self).running_processes@.push(
                (Process { pid, output_tmp_file: Option::<String>::None }),
            ),
            final(self).status == (if old(self).entry.trigger matches Trigger::Timer(
                Timer::Once(_),
            ) {
                old(self).status
            } else {
                Status::Running
            }),
            final(self).wf() == old(self).wf(),
    {
        self.running_processes.push(Process { pid, output_tmp_file: None });
        match &self.entry.trigger {
            Trigger::Timer(Timer::Once(_)) => (),
            _ => {
                self.status = Status::Running;
            },
        }
    }
}

/// The state a `Work` is left in by `stop`: paused with no tracked
/// processes when its entry has an action, untouched otherwise.
pub open spec fn stop_post(pre: WorkV) -> WorkV {
    match pre.entry.action {
        crate::entry::ActionV::Exec(_) => WorkV {
            status: Status::Paused,
            running_processes: Seq::<Process>::empty(),
            ..pre
        },
        crate::entry::ActionV::Nothing => pre,
    }
}

/// The processes `stop` hands back to be killed.
pub open spec fn stop_removed(pre: WorkV) -> Seq<Process> {
    match pre.entry.action {
        crate::entry::ActionV::Exec(_) => pre.running_processes,
        crate::entry::ActionV::Nothing => Seq::<Process>::empty(),
    }
}

/// The full transition relation of `start`: how the post-state and the
/// result follow from the pre-state, for every trigger and action shape.
/// The only freedom left open is whether an in-range due-time advance is
/// representable as a local time, which the time-zone conversion decides.
pub open spec fn start_rel(pre: WorkV, post: WorkV, r: Result<bool, WorkError>) -> bool {
    match pre.entry.action {
        crate::entry::ActionV::Nothing => r == Result::<bool, WorkError>::Ok(false) && post == pre,
        crate::entry::ActionV::Exec(_) => match pre.entry.trigger {
            Trigger::Nothing => r == Result::<bool, WorkError>::Ok(false) && post == pre,
            Trigger::Timer(timer) => match timer {
                Timer::Never => r == Result::<bool, WorkError>::Err(WorkError::NeverTimer) && post
                    == pre,
                Timer::Once(_) => if pre.trigger_state.exec_times >= 1 {
                    r == Result::<bool, WorkError>::Err(WorkError::ExecutedTwice) && post == pre
                } else {
                    r == Result::<bool, WorkError>::Ok(true) && post == (WorkV {
                        status: Status::Paused,
                        trigger_state: TriggerState {
                            exec_time: pre.trigger_state.exec_time,
                            exec_times: (pre.trigger_state.exec_times + 1) as u32,
                        },
                        ..pre
                    })
                },
                Timer::Repeat(d) => started_with_advance(pre, post, r, d),
                Timer::ManyTimes(d, n) => if pre.trigger_state.exec_times >= n {
                    r == Result::<bool, WorkError>::Err(WorkError::ExceededTimes) && post == pre
                } else {
                    started_with_advance(pre, post, r, d)
                },
            },
        },
    }
}

/// A firing that advances the due time by `d`. While the shifted instant
/// stays within eight trillion seconds of the epoch — the range on which
/// the time-zone conversion owes an answer — the firing succeeds: the
/// cursor moves exactly one fixed-length offset forward, the fire count
/// grows by one, and the status waits for the spawn to be recorded. The
/// invalid-time error arises only outside that range, and changes
/// nothing.
pub open spec fn started_with_advance(
    pre: WorkV,
    post: WorkV,
    r: Result<bool, WorkError>,
    d: crate::time::Duration,
) -> bool {
    match r {
        Ok(b) => {
            &&& b == true
            &&& post.status == pre.status
            &&& post.entry == pre.entry
            &&& post.running_processes == pre.running_processes
            &&& post.trigger_state.exec_times == pre.trigger_state.exec_times + 1
            &&& match (pre.trigger_state.exec_time, post.trigger_state.exec_time) {
                (Some(prev), Some(next)) => {
                    &&& next.timestamp == prev.timestamp + duration_offset(d)
                    &&& calendar_in_range(next)
                    &&& ts_in_chrono_range(next.timestamp)
                    &&& next.time_zone is Local
                },
                _ => false,
            }
        },
        Err(e) => {
            &&& e == WorkError::InvalidTime
            &&& post == pre
            &&& match pre.trigger_state.exec_time {
                Some(prev) => !(-8_000_000_000_000 <= prev.timestamp + duration_offset(d)
                    <= 8_000_000_000_000),
                None => false,
            }
        },
    }
}

/// The fire count never passes a `ManyTimes` bound: starting from a count
/// at or under the bound it stays at or under it, and once the bound is
/// reached every further `start` fails with the exceeded-times condition.
pub proof fn lemma_many_times_bounded(
    pre: WorkV,
    post: WorkV,
    r: Result<bool, WorkError>,
    d: crate::time::Duration,
    n: u32,
)
    requires
        start_rel(pre, post, r),
        pre.entry.action is Exec,
        pre.entry.trigger == Trigger::Timer(Timer::ManyTimes(d, n)),
        pre.trigger_state.exec_times <= n,
    ensures
        post.trigger_state.exec_times <= n,
        post.trigger_state.exec_times >= pre.trigger_state.exec_times,
        pre.trigger_state.exec_times == n ==> r == Result::<bool, WorkError>::Err(
            WorkError::ExceededTimes,
        ) && post == pre,
{
}

/// A `Once` timer permits exactly one successful `start`: the first firing
/// succeeds, leaves the job paused and the count at one; any later firing
/// fails with the twice-executed condition and changes nothing.
pub proof fn lemma_once_fires_exactly_once(pre: WorkV, post: WorkV, r: Result<bool, WorkError>)
    requires
        start_rel(pre, post, r),
        pre.entry.action is Exec,
        pre.entry.trigger matches Trigger::Timer(Timer::Once(_)),
    ensures
        pre.trigger_state.exec_times == 0 ==> r == Result::<bool, WorkError>::Ok(true)
            && post.status == Status::Paused && post.trigger_state.exec_times == 1,
        pre.trigger_state.exec_times >= 1 ==> r == Result::<bool, WorkError>::Err(
            WorkError::ExecutedTwice,
        ) && post == pre,
{
}


} // verus!
