use vstd::prelude::*;

verus! {

/// What a stopwatch is, abstractly: the instant it was started at, if it is
/// running, and the time it accumulated over earlier runs.
pub ghost struct TimerModel {
    pub running_since: Option<int>,
    pub accumulated: int,
}

impl TimerModel {
    pub open spec fn is_running(self) -> bool {
        self.running_since is Some
    }

    /// Elapsed time as read at instant `now`.
    pub open spec fn elapsed(self, now: int) -> int {
        match self.running_since {
            Some(since) => self.accumulated + (now - since),
            None => self.accumulated,
        }
    }

    /// The effect of `start` at `now`: nothing if already running.
    pub open spec fn started(self, now: int) -> TimerModel {
        match self.running_since {
            Some(_) => self,
            None => TimerModel { running_since: Some(now), accumulated: self.accumulated },
        }
    }

    /// The effect of `stop` at `now`: the current run is folded in.
    pub open spec fn stopped(self, now: int) -> TimerModel {
        match self.running_since {
            Some(_) => TimerModel { running_since: None, accumulated: self.elapsed(now) },
            None => self,
        }
    }

    pub open spec fn cleared(self) -> TimerModel {
        TimerModel { running_since: None, accumulated: 0 }
    }
}

/// A call that starts or stops a stopwatch.
pub enum StopwatchOp {
    Start,
    Stop,
}

impl TimerModel {
    pub open spec fn step(self, op: StopwatchOp, now: int) -> TimerModel {
        match op {
            StopwatchOp::Start => self.started(now),
            StopwatchOp::Stop => self.stopped(now),
        }
    }

    /// The stopwatch after the calls `ops`, each made at its instant.
    pub open spec fn replay(self, ops: Seq<(StopwatchOp, int)>) -> TimerModel
        decreases ops.len(),
    {
        if ops.len() == 0 {
            self
        } else {
            self.step(ops[0].0, ops[0].1).replay(ops.drop_first())
        }
    }
}

/// Instants that never go back, none before `from`.
pub open spec fn times_from(ops: Seq<(StopwatchOp, int)>, from: int) -> bool {
    &&& forall|i: int| 0 <= i < ops.len() ==> from <= #[trigger] ops[i].1
    &&& forall|i: int, j: int| 0 <= i <= j < ops.len() ==> ops[i].1 <= ops[j].1
}

/// Read at two instants, a running stopwatch never shows less at the later
/// one, and an idle one shows the same.
pub proof fn lemma_elapsed_monotonic(t: TimerModel, a: int, b: int)
    requires
        a <= b,
    ensures
        t.elapsed(a) <= t.elapsed(b),
        !t.is_running() ==> t.elapsed(a) == t.elapsed(b),
{
}

/// Starting or stopping leaves the reading at that instant as it was, and
/// clearing makes it zero at every instant.
pub proof fn lemma_calls_keep_reading(t: TimerModel, now: int, any: int)
    ensures
        t.started(now).elapsed(now) == t.elapsed(now),
        t.stopped(now).elapsed(now) == t.elapsed(now),
        t.cleared().elapsed(any) == 0,
        !t.cleared().is_running(),
{
}

/// Over any series of start and stop calls at instants that never go back,
/// the reading never decreases.
pub proof fn lemma_replay_monotonic(t: TimerModel, ops: Seq<(StopwatchOp, int)>, from: int, at: int)
    requires
        times_from(ops, from),
        from <= at,
        ops.len() > 0 ==> ops.last().1 <= at,
    ensures
        t.elapsed(from) <= t.replay(ops).elapsed(at),
    decreases ops.len(),
{
    if ops.len() == 0 {
        lemma_elapsed_monotonic(t, from, at);
    } else {
        let now = ops[0].1;
        let next = t.step(ops[0].0, now);
        lemma_elapsed_monotonic(t, from, now);
        lemma_calls_keep_reading(t, now, now);
        let rest = ops.drop_first();
        assert(times_from(rest, now)) by {
            assert forall|i: int| 0 <= i < rest.len() implies now <= #[trigger] rest[i].1 by {
                assert(rest[i] == ops[i + 1]);
            }
            assert forall|i: int, j: int| 0 <= i <= j < rest.len() implies rest[i].1 <= rest[j].1 by {
                assert(rest[i] == ops[i + 1]);
                assert(rest[j] == ops[j + 1]);
            }
        }
        if rest.len() > 0 {
            assert(rest.last() == ops.last());
        } else {
            assert(ops.last() == ops[0]);
        }
        lemma_replay_monotonic(next, rest, now, at);
    }
}

/// A pausable elapsed-time counter, in milliseconds.
pub struct Timer {
    start_time: Option<u64>,
    offset: u64,
    /// The latest instant this timer was started or stopped at.
    latest: u64,
}

impl View for Timer {
    type V = TimerModel;

    closed spec fn view(&self) -> TimerModel {
        TimerModel {
            running_since: match self.start_time {
                Some(s) => Some(s as int),
                None => None,
            },
            accumulated: self.offset as int,
        }
    }
}

impl Timer {
    /// The latest instant seen by `start` or `stop`; later calls must not
    /// pass an earlier one.
    pub closed spec fn clock(&self) -> int {
        self.latest as int
    }

    pub closed spec fn wf(&self) -> bool {
        &&& self.offset <= self.latest
        &&& match self.start_time {
            Some(s) => self.offset <= s && s <= self.latest,
            None => true,
        }
    }

    pub fn new() -> (r: Self)
        ensures
            r.wf(),
            r@ == (TimerModel { running_since: None, accumulated: 0 }),
            r.clock() == 0,
    {
        Timer { start_time: None, offset: 0, latest: 0 }
    }

    pub fn is_running(&self) -> (r: bool)
        ensures
            r == self@.is_running(),
    {
        self.start_time.is_some()
    }

    /// The latest instant given to `start` or `stop`.
    pub fn last_instant(&self) -> (r: u64)
        ensures
            r == self.clock(),
    {
        self.latest
    }

    /// Starts the timer at `now`; a running timer keeps its start instant.
    pub fn start(&mut self, now: u64)
        requires
            old(self).wf(),
            now >= old(self).clock(),
        ensures
            final(self).wf(),
            final(self)@ == old(self)@.started(now as int),
            final(self).clock() == now,
    {
        if self.start_time.is_none() {
            self.start_time = Some(now);
        }
        self.latest = now;
    }

    /// Stops the timer at `now`, adding the current run to the total.
    pub fn stop(&mut self, now: u64)
        requires
            old(self).wf(),
            now >= old(self).clock(),
        ensures
            final(self).wf(),
            final(self)@ == old(self)@.stopped(now as int),
            final(self).clock() == now,
    {
        match self.start_time {
            Some(start_time) => {
                self.offset = self.offset + (now - start_time);
                self.start_time = None;
            },
            None => {},
        }
        self.latest = now;
    }

    /// Zeroes the timer, whether it runs or not.
    pub fn clear(&mut self)
        requires
            old(self).wf(),
        ensures
            final(self).wf(),
            final(self)@ == old(self)@.cleared(),
            final(self).clock() == old(self).clock(),
    {
        self.start_time = None;
        self.offset = 0;
    }

    /// Elapsed time at `now`, in milliseconds.
    pub fn get_duration(&self, now: u64) -> (r: u64)
        requires
            self.wf(),
            now >= self.clock(),
        ensures
            r == self@.elapsed(now as int),
    {
        match self.start_time {
            Some(start_time) => self.offset + (now - start_time),
            None => self.offset,
        }
    }
}

} // verus!
