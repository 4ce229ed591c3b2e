use vstd::prelude::*;

use crate::policy::{ButtonSide, Command};

verus! {

/// How long a raw level must stay unchanged before it is acted on.
pub const DEBOUNCE_MS: u64 = 25;

/// How long both buttons must stay held before both lanes are reset.
pub const RESET_HOLD_MS: u64 = 3000;

/// Which of the two deadlines elapsed.
#[derive(Clone, Copy, Debug, PartialEq, Eq, Structural)]
pub enum TimeoutEvent {
    TickTimeout,
    ResetTimeout,
}

/// The tracker, abstractly: the debounced levels, the two deadlines and
/// the latch that holds decisions back after a reset until both buttons
/// are released.
pub ghost struct TrackerModel {
    pub left: bool,
    pub right: bool,
    pub tick: Option<int>,
    pub reset: Option<int>,
    pub latch: bool,
}

impl TrackerModel {
    pub open spec fn initial() -> TrackerModel {
        TrackerModel { left: false, right: false, tick: None, reset: None, latch: false }
    }

    pub open spec fn level(self, side: ButtonSide) -> bool {
        match side {
            ButtonSide::Left => self.left,
            ButtonSide::Right => self.right,
        }
    }

    /// The state after a raw level `level` of `side` arrives at `now`: a
    /// change is stored and restarts the debounce window; a repeat is ignored.
    pub open spec fn updated(self, side: ButtonSide, level: bool, now: int) -> TrackerModel {
        if self.level(side) == level {
            self
        } else {
            match side {
                ButtonSide::Left => TrackerModel {
                    left: level,
                    tick: Some(now + DEBOUNCE_MS),
                    ..self
                },
                ButtonSide::Right => TrackerModel {
                    right: level,
                    tick: Some(now + DEBOUNCE_MS),
                    ..self
                },
            }
        }
    }

    pub open spec fn tick_due(self, now: int) -> bool {
        self.tick is Some && self.tick->0 <= now
    }

    pub open spec fn reset_due(self, now: int) -> bool {
        self.reset is Some && self.reset->0 <= now
    }

    /// The deadline that has elapsed by `now`, the earlier one if both
    /// have, the tick on a tie.
    pub open spec fn due(self, now: int) -> Option<TimeoutEvent> {
        if self.tick_due(now) && !(self.reset_due(now) && self.reset->0 < self.tick->0) {
            Some(TimeoutEvent::TickTimeout)
        } else if self.reset_due(now) {
            Some(TimeoutEvent::ResetTimeout)
        } else {
            None
        }
    }

    /// The deadline of `e`'s slot.
    pub open spec fn deadline(self, e: TimeoutEvent) -> Option<int> {
        match e {
            TimeoutEvent::TickTimeout => self.tick,
            TimeoutEvent::ResetTimeout => self.reset,
        }
    }

    /// The state once `e`'s slot is emptied.
    pub open spec fn taken(self, e: TimeoutEvent) -> TrackerModel {
        match e {
            TimeoutEvent::TickTimeout => TrackerModel { tick: None, ..self },
            TimeoutEvent::ResetTimeout => TrackerModel { reset: None, ..self },
        }
    }

    /// The command a firing of `e` issues.
    pub open spec fn command(self, e: TimeoutEvent) -> Option<Command> {
        match e {
            TimeoutEvent::TickTimeout => if self.latch {
                None
            } else if self.left && !self.right {
                Some(Command::StartLane(ButtonSide::Left))
            } else if !self.left && self.right {
                Some(Command::StartLane(ButtonSide::Right))
            } else {
                None
            },
            TimeoutEvent::ResetTimeout => Some(Command::ResetAll),
        }
    }

    /// The state after a firing of `e` is handled at `now`.
    pub open spec fn fired(self, e: TimeoutEvent, now: int) -> TrackerModel {
        match e {
            TimeoutEvent::TickTimeout => if !self.left && !self.right {
                TrackerModel { latch: false, ..self }
            } else if self.latch {
                self
            } else if self.left && self.right {
                TrackerModel { reset: Some(now + RESET_HOLD_MS), ..self }
            } else {
                TrackerModel { reset: None, ..self }
            },
            TimeoutEvent::ResetTimeout => TrackerModel { latch: true, ..self },
        }
    }

    pub open spec fn pending(self) -> nat {
        (if self.tick is Some { 2nat } else { 0nat }) + (if self.reset is Some { 1nat } else { 0nat })
    }

    /// Handles, each at its own deadline, every deadline that elapses by
    /// `now`; returns the state and the commands issued, in order.
    pub open spec fn settle(self, now: int) -> (TrackerModel, Seq<Command>)
        decreases self.pending(),
    {
        match self.due(now) {
            None => (self, Seq::empty()),
            Some(e) => {
                let next = self.taken(e).fired(e, self.deadline(e)->0);
                let issued = match self.command(e) {
                    Some(c) => seq![c],
                    None => Seq::empty(),
                };
                let (last, rest) = next.settle(now);
                (last, issued + rest)
            },
        }
    }

    /// Settles up to `now`, then takes a raw level of `side`.
    pub open spec fn input(self, side: ButtonSide, level: bool, now: int) -> (TrackerModel, Seq<Command>) {
        let (m, cs) = self.settle(now);
        (m.updated(side, level, now), cs)
    }

    /// Takes a series of raw levels `(side, level, instant)` in order.
    pub open spec fn run(self, inputs: Seq<(ButtonSide, bool, int)>) -> (TrackerModel, Seq<Command>)
        decreases inputs.len(),
    {
        if inputs.len() == 0 {
            (self, Seq::empty())
        } else {
            let (m, cs) = self.input(inputs[0].0, inputs[0].1, inputs[0].2);
            let (last, rest) = m.run(inputs.drop_first());
            (last, cs + rest)
        }
    }
}

/// With no reset countdown in flight, whatever deadlines elapse issue at
/// most one command.
pub proof fn lemma_settle_at_most_one(m: TrackerModel, now: int)
    requires
        m.reset is None,
    ensures
        m.settle(now).1.len() <= 1,
{
    match m.due(now) {
        None => {},
        Some(e) => {
            assert(e == TimeoutEvent::TickTimeout);
            let next = m.taken(e).fired(e, m.tick->0);
            if next.reset is Some {
                assert(m.command(e) is None);
                let r = next.reset->0;
                if next.due(now) is Some {
                    let last = next.taken(TimeoutEvent::ResetTimeout).fired(TimeoutEvent::ResetTimeout, r);
                    assert(last.due(now) is None);
                    assert(last.settle(now).1.len() == 0);
                    assert(next.settle(now).1.len() == 1);
                } else {
                    assert(next.settle(now).1.len() == 0);
                }
            } else {
                assert(next.due(now) is None);
                assert(next.settle(now).1.len() == 0);
            }
        },
    }
}

/// Raw levels of one lane that each flip the level before and arrive
/// within one debounce window of the one before.
pub open spec fn rapid_flips(inputs: Seq<(ButtonSide, bool, int)>, side: ButtonSide, from: bool) -> bool {
    &&& inputs.len() > 0
    &&& forall|i: int| 0 <= i < inputs.len() ==> (#[trigger] inputs[i]).0 == side
    &&& inputs[0].1 != from
    &&& forall|i: int| 0 <= i < inputs.len() - 1 ==> {
        &&& inputs[i + 1].1 != (#[trigger] inputs[i]).1
        &&& inputs[i].2 <= inputs[i + 1].2
        &&& inputs[i + 1].2 < inputs[i].2 + DEBOUNCE_MS
    }
}

proof fn lemma_rapid_flips_pending(m: TrackerModel, inputs: Seq<(ButtonSide, bool, int)>, side: ButtonSide)
    requires
        rapid_flips(inputs, side, m.level(side)),
        m.reset is None,
        m.tick matches Some(d) ==> d > inputs[0].2,
    ensures
        m.run(inputs).1.len() == 0,
        m.run(inputs).0.reset is None,
        m.run(inputs).0.tick == Some(inputs.last().2 + DEBOUNCE_MS),
        m.run(inputs).0.level(side) == inputs.last().1,
    decreases inputs.len(),
{
    let first = inputs[0];
    assert(first.0 == side);
    assert(m.due(first.2) is None);
    assert(m.settle(first.2) == (m, Seq::<Command>::empty()));
    let m1 = m.updated(side, first.1, first.2);
    assert(m.input(side, first.1, first.2) == (m1, Seq::<Command>::empty()));
    let rest = inputs.drop_first();
    if rest.len() == 0 {
        assert(m1.run(rest) == (m1, Seq::<Command>::empty()));
        assert(inputs.last() == first);
        assert(Seq::<Command>::empty() + Seq::<Command>::empty() =~= Seq::<Command>::empty());
    } else {
        assert(rest[0] == inputs[1]);
        assert(rest.last() == inputs.last());
        assert forall|i: int| 0 <= i < rest.len() implies (#[trigger] rest[i]).0 == side by {
            assert(rest[i] == inputs[i + 1]);
        }
        assert forall|i: int| 0 <= i < rest.len() - 1 implies {
            &&& rest[i + 1].1 != (#[trigger] rest[i]).1
            &&& rest[i].2 <= rest[i + 1].2
            &&& rest[i + 1].2 < rest[i].2 + DEBOUNCE_MS
        } by {
            assert(rest[i] == inputs[i + 1]);
            assert(rest[i + 1] == inputs[i + 2]);
        }
        assert(inputs[1].1 != inputs[0].1);
        lemma_rapid_flips_pending(m1, rest, side);
        assert(Seq::<Command>::empty() + m1.run(rest).1 =~= m1.run(rest).1);
    }
}

/// From a settled state, raw levels of one lane that flip faster than the
/// debounce window issue no command while they bounce, and at most one
/// once the lane is stable, whenever that is looked at.
pub proof fn lemma_bounce_one_command(
    m: TrackerModel,
    inputs: Seq<(ButtonSide, bool, int)>,
    side: ButtonSide,
    at: int,
)
    requires
        rapid_flips(inputs, side, m.level(side)),
        m.tick is None,
        m.reset is None,
    ensures
        m.run(inputs).1.len() == 0,
        m.run(inputs).0.settle(at).1.len() <= 1,
{
    lemma_rapid_flips_pending(m, inputs, side);
    lemma_settle_at_most_one(m.run(inputs).0, at);
}

/// Both buttons pressed within one debounce window and held: once the hold
/// window has passed, exactly one reset and no lane start; before that, the
/// reset countdown runs and nothing is issued.
pub proof fn lemma_hold_both_resets(side: ButtonSide, first: int, second: int, at: int)
    requires
        first <= second < first + DEBOUNCE_MS,
    ensures
        ({
            let (m, cs) = TrackerModel::initial().run(seq![(side, true, first), (side.other(), true, second)]);
            &&& cs.len() == 0
            &&& second + DEBOUNCE_MS <= at < second + DEBOUNCE_MS + RESET_HOLD_MS ==> {
                &&& m.settle(at).1.len() == 0
                &&& m.settle(at).0.reset == Some(second + DEBOUNCE_MS + RESET_HOLD_MS)
            }
            &&& second + DEBOUNCE_MS + RESET_HOLD_MS <= at ==> {
                &&& m.settle(at).1 == seq![Command::ResetAll]
                &&& m.settle(at).0.latch
            }
        }),
{
    let inputs = seq![(side, true, first), (side.other(), true, second)];
    let m0 = TrackerModel::initial();
    assert(m0.settle(first) == (m0, Seq::<Command>::empty()));
    let m1 = m0.updated(side, true, first);
    assert(m1.due(second) is None);
    assert(m1.settle(second) == (m1, Seq::<Command>::empty()));
    let m2 = m1.updated(side.other(), true, second);
    let rest = inputs.drop_first();
    assert(rest.drop_first() =~= Seq::<(ButtonSide, bool, int)>::empty());
    assert(m2.run(rest.drop_first()) == (m2, Seq::<Command>::empty()));
    assert(m1.run(rest) == (m2, Seq::<Command>::empty() + Seq::<Command>::empty()));
    assert(Seq::<Command>::empty() + Seq::<Command>::empty() =~= Seq::<Command>::empty());
    assert(m0.run(inputs) == (m2, Seq::<Command>::empty()));
    assert(m2.left && m2.right && !m2.latch);
    assert(m2.tick == Some(second + DEBOUNCE_MS));
    if second + DEBOUNCE_MS <= at {
        let t = TimeoutEvent::TickTimeout;
        assert(m2.due(at) == Some(t));
        let m3 = m2.taken(t).fired(t, second + DEBOUNCE_MS);
        assert(m3.reset == Some(second + DEBOUNCE_MS + RESET_HOLD_MS));
        assert(m2.command(t) is None);
        if at < second + DEBOUNCE_MS + RESET_HOLD_MS {
            assert(m3.due(at) is None);
            assert(m3.settle(at) == (m3, Seq::<Command>::empty()));
            assert(Seq::<Command>::empty() + Seq::<Command>::empty() =~= Seq::<Command>::empty());
        } else {
            let r = TimeoutEvent::ResetTimeout;
            assert(m3.due(at) == Some(r));
            let m4 = m3.taken(r).fired(r, second + DEBOUNCE_MS + RESET_HOLD_MS);
            assert(m4.due(at) is None);
            assert(m4.settle(at) == (m4, Seq::<Command>::empty()));
            assert(seq![Command::ResetAll] + Seq::<Command>::empty() =~= seq![Command::ResetAll]);
            assert(m3.settle(at) == (m4, seq![Command::ResetAll]));
            assert(Seq::<Command>::empty() + seq![Command::ResetAll] =~= seq![Command::ResetAll]);
        }
    }
}

/// After a reset, with both buttons still held: releasing one and then the
/// other issues nothing, and the latch is open again; a press after that
/// starts the pressed lane, once.
pub proof fn lemma_release_after_reset(
    m: TrackerModel,
    side: ButtonSide,
    first: int,
    second: int,
    again: ButtonSide,
    third: int,
    at: int,
)
    requires
        m.latch,
        m.left,
        m.right,
        m.tick is None,
        m.reset is None,
        first <= second,
        second + DEBOUNCE_MS <= third,
        third + DEBOUNCE_MS <= at,
    ensures
        ({
            let (released, cs) = m.run(seq![(side, false, first), (side.other(), false, second)]);
            let (pressed, ds) = released.input(again, true, third);
            &&& cs.len() == 0
            &&& ds.len() == 0
            &&& !pressed.latch
            &&& pressed.settle(at).1 == seq![Command::StartLane(again)]
        }),
{
    let e: Seq<Command> = Seq::empty();
    let t = TimeoutEvent::TickTimeout;
    assert(e + e =~= e);
    assert(m.settle(first) == (m, e));
    let m1 = m.updated(side, false, first);
    assert(m1.tick == Some(first + DEBOUNCE_MS));
    let m1s = m1.settle(second).0;
    if first + DEBOUNCE_MS <= second {
        assert(m1.due(second) == Some(t));
        let n = m1.taken(t).fired(t, first + DEBOUNCE_MS);
        assert(m1.command(t) is None);
        assert(n.due(second) is None);
        assert(n.settle(second) == (n, e));
        assert(m1.settle(second) == (n, e));
    } else {
        assert(m1.due(second) is None);
        assert(m1.settle(second) == (m1, e));
    }
    assert(m1s.latch && !m1s.level(side) && m1s.level(side.other()) && m1s.reset is None);
    let m2 = m1s.updated(side.other(), false, second);
    let inputs = seq![(side, false, first), (side.other(), false, second)];
    let rest = inputs.drop_first();
    assert(rest.drop_first() =~= Seq::<(ButtonSide, bool, int)>::empty());
    assert(m2.run(rest.drop_first()) == (m2, e));
    assert(m1.run(rest) == (m2, e));
    assert(m.run(inputs) == (m2, e));
    assert(m2.tick == Some(second + DEBOUNCE_MS) && !m2.left && !m2.right);
    assert(m2.due(third) == Some(t));
    let m3 = m2.taken(t).fired(t, second + DEBOUNCE_MS);
    assert(m2.command(t) is None);
    assert(m3.due(third) is None);
    assert(m3.settle(third) == (m3, e));
    assert(m2.settle(third) == (m3, e));
    let m4 = m3.updated(again, true, third);
    assert(!m4.latch && m4.reset is None && m4.tick == Some(third + DEBOUNCE_MS));
    assert(m4.level(again) && !m4.level(again.other()));
    assert(m4.due(at) == Some(t));
    let m5 = m4.taken(t).fired(t, third + DEBOUNCE_MS);
    assert(m4.command(t) == Some(Command::StartLane(again)));
    assert(m5.due(at) is None);
    assert(m5.settle(at) == (m5, e));
    assert(seq![Command::StartLane(again)] + e =~= seq![Command::StartLane(again)]);
}

/// Turns raw, possibly bouncing button levels into lane starts and resets.
pub struct ButtonTracker {
    left_state: bool,
    right_state: bool,
    /// When the levels will have been stable long enough to act on.
    tick_timeout: Option<u64>,
    /// When both buttons will have been held long enough to reset.
    reset_timeout: Option<u64>,
    /// Set by a reset until both buttons are seen released.
    reset_debounce: bool,
}

impl View for ButtonTracker {
    type V = TrackerModel;

    closed spec fn view(&self) -> TrackerModel {
        TrackerModel {
            left: self.left_state,
            right: self.right_state,
            tick: match self.tick_timeout {
                Some(t) => Some(t as int),
                None => None,
            },
            reset: match self.reset_timeout {
                Some(t) => Some(t as int),
                None => None,
            },
            latch: self.reset_debounce,
        }
    }
}

impl ButtonTracker {
    pub fn new() -> (r: Self)
        ensures
            r@ == TrackerModel::initial(),
    {
        ButtonTracker {
            left_state: false,
            right_state: false,
            tick_timeout: None,
            reset_timeout: None,
            reset_debounce: false,
        }
    }

    /// The earliest armed deadline, if any.
    pub fn next_deadline(&self) -> (r: Option<u64>)
        ensures
            r is None <==> (self@.tick is None && self@.reset is None),
            r matches Some(d) ==> (self@.tick == Some(d as int) || self@.reset == Some(d as int)),
            r matches Some(d) ==> (self@.tick matches Some(t) ==> d <= t),
            r matches Some(d) ==> (self@.reset matches Some(t) ==> d <= t),
    {
        match (self.tick_timeout, self.reset_timeout) {
            (Some(t), Some(r)) => if t <= r { Some(t) } else { Some(r) },
            (Some(t), None) => Some(t),
            (None, Some(r)) => Some(r),
            (None, None) => None,
        }
    }

    /// Takes the deadline that has elapsed by `now`, if any, emptying its slot.
    pub fn get_timeout(&mut self, now: u64) -> (r: Option<TimeoutEvent>)
        ensures
            r == old(self)@.due(now as int),
            final(self)@ == match r {
                Some(e) => old(self)@.taken(e),
                None => old(self)@,
            },
    {
        let tick_due = match self.tick_timeout {
            Some(t) => t <= now,
            None => false,
        };
        let reset_due = match self.reset_timeout {
            Some(t) => t <= now,
            None => false,
        };
        let reset_first = match (self.tick_timeout, self.reset_timeout) {
            (Some(t), Some(r)) => r < t,
            _ => false,
        };
        if tick_due && !(reset_due && reset_first) {
            self.tick_timeout = None;
            Some(TimeoutEvent::TickTimeout)
        } else if reset_due {
            self.reset_timeout = None;
            Some(TimeoutEvent::ResetTimeout)
        } else {
            None
        }
    }

    /// Acts on a deadline that elapsed, handled at `now`; returns the
    /// command for the two-lane policy, if any.
    pub fn timeout_update(&mut self, event: TimeoutEvent, now: u64) -> (r: Option<Command>)
        requires
            now + RESET_HOLD_MS <= u64::MAX,
        ensures
            r == old(self)@.command(event),
            final(self)@ == old(self)@.fired(event, now as int),
    {
        match event {
            TimeoutEvent::TickTimeout => {
                if !self.left_state && !self.right_state {
                    self.reset_debounce = false;
                    None
                } else if self.reset_debounce {
                    None
                } else if self.left_state && self.right_state {
                    self.reset_timeout = Some(now + RESET_HOLD_MS);
                    None
                } else if self.left_state {
                    self.reset_timeout = None;
                    Some(Command::StartLane(ButtonSide::Left))
                } else {
                    self.reset_timeout = None;
                    Some(Command::StartLane(ButtonSide::Right))
                }
            },
            TimeoutEvent::ResetTimeout => {
                self.reset_debounce = true;
                Some(Command::ResetAll)
            },
        }
    }

    /// Takes a raw level of `side` read at `now`.
    pub fn update(&mut self, side: ButtonSide, state: bool, now: u64)
        requires
            now + DEBOUNCE_MS <= u64::MAX,
        ensures
            final(self)@ == old(self)@.updated(side, state, now as int),
    {
        let existing = match side {
            ButtonSide::Left => self.left_state,
            ButtonSide::Right => self.right_state,
        };
        if existing == state {
            return;
        }
        match side {
            ButtonSide::Left => self.left_state = state,
            ButtonSide::Right => self.right_state = state,
        }
        self.tick_timeout = Some(now + DEBOUNCE_MS);
    }
}

} // verus!
