use vstd::prelude::*;

use crate::stopwatch::{Timer, TimerModel};

verus! {

/// One of the two lanes.
#[derive(Clone, Copy, Debug, PartialEq, Eq, Structural)]
pub enum ButtonSide {
    Left,
    Right,
}

impl ButtonSide {
    pub open spec fn other(self) -> ButtonSide {
        match self {
            ButtonSide::Left => ButtonSide::Right,
            ButtonSide::Right => ButtonSide::Left,
        }
    }
}

/// What the audio collaborator must do after a policy call.
#[derive(Clone, Copy, Debug, PartialEq, Eq, Structural)]
pub enum AudioAction {
    /// Leave whatever plays as it is.
    Keep,
    /// Replace what plays by the looping cue of this lane.
    Play(ButtonSide),
    /// Stop what plays.
    Stop,
}

/// A command to the two-lane policy.
#[derive(Clone, Copy, Debug, PartialEq, Eq, Structural)]
pub enum Command {
    StartLane(ButtonSide),
    ResetAll,
}

/// Settings of one lane.
pub struct TimerConfig {
    pub color: String,
    /// Path of the audio cue looped while this lane runs, if any.
    pub music_file: Option<String>,
    pub flipped: bool,
}

/// Settings of the whole clock.
pub struct Config {
    /// Whether starting a running lane stops it.
    pub button_toggle: bool,
    pub left_timer: TimerConfig,
    pub right_timer: TimerConfig,
}

/// The two lanes, abstractly, with the settings the policy reads.
pub ghost struct PolicyModel {
    pub left: TimerModel,
    pub right: TimerModel,
    pub toggle: bool,
    pub left_music: bool,
    pub right_music: bool,
}

impl PolicyModel {
    pub open spec fn lane(self, side: ButtonSide) -> TimerModel {
        match side {
            ButtonSide::Left => self.left,
            ButtonSide::Right => self.right,
        }
    }

    pub open spec fn has_music(self, side: ButtonSide) -> bool {
        match side {
            ButtonSide::Left => self.left_music,
            ButtonSide::Right => self.right_music,
        }
    }

    pub open spec fn with_lane(self, side: ButtonSide, t: TimerModel) -> PolicyModel {
        match side {
            ButtonSide::Left => PolicyModel { left: t, ..self },
            ButtonSide::Right => PolicyModel { right: t, ..self },
        }
    }

    /// Whether starting `side` stops it instead.
    pub open spec fn toggles_off(self, side: ButtonSide) -> bool {
        self.lane(side).is_running() && self.toggle
    }

    /// The lanes after starting `side` at `now`.
    pub open spec fn started(self, side: ButtonSide, now: int) -> PolicyModel {
        if self.toggles_off(side) {
            self.with_lane(side, self.lane(side).stopped(now))
        } else {
            self.with_lane(side.other(), self.lane(side.other()).stopped(now)).with_lane(
                side,
                self.lane(side).started(now),
            )
        }
    }

    /// The audio action that goes with starting `side`.
    pub open spec fn start_audio(self, side: ButtonSide) -> AudioAction {
        if !self.toggles_off(side) && self.has_music(side) {
            AudioAction::Play(side)
        } else {
            AudioAction::Keep
        }
    }

    pub open spec fn cleared(self) -> PolicyModel {
        PolicyModel { left: self.left.cleared(), right: self.right.cleared(), ..self }
    }

    /// The lanes after carrying out `c` at `now`.
    pub open spec fn applied(self, c: Command, now: int) -> PolicyModel {
        match c {
            Command::StartLane(side) => self.started(side, now),
            Command::ResetAll => self.cleared(),
        }
    }

    pub open spec fn apply_audio(self, c: Command) -> AudioAction {
        match c {
            Command::StartLane(side) => self.start_audio(side),
            Command::ResetAll => AudioAction::Stop,
        }
    }
}

impl PolicyModel {
    pub open spec fn exclusive(self) -> bool {
        !(self.left.is_running() && self.right.is_running())
    }
}

/// Starting a lane always leaves the other lane stopped.
pub proof fn lemma_start_stops_other(m: PolicyModel, side: ButtonSide, now: int)
    requires
        m.exclusive(),
    ensures
        !m.started(side, now).lane(side.other()).is_running(),
        m.started(side, now).exclusive(),
{
}

/// In toggle mode each start of a lane flips whether it runs, so a second
/// start right after one that started it stops it.
pub proof fn lemma_toggle_twice(m: PolicyModel, side: ButtonSide, first: int, second: int)
    requires
        m.toggle,
        m.exclusive(),
    ensures
        m.started(side, first).lane(side).is_running() == !m.lane(side).is_running(),
        !m.lane(side).is_running() ==> m.started(side, first).lane(side).is_running()
            && !m.started(side, first).started(side, second).lane(side).is_running(),
{
}

/// Without toggle mode a second start of a running lane changes nothing of
/// it: it keeps running from the same instant, and reads the same at every
/// instant.
pub proof fn lemma_repeat_start_keeps_running(m: PolicyModel, side: ButtonSide, first: int, second: int, at: int)
    requires
        !m.toggle,
    ensures
        m.started(side, first).lane(side).is_running(),
        m.started(side, first).started(side, second).lane(side) == m.started(side, first).lane(side),
        m.started(side, first).started(side, second).lane(side).elapsed(at)
            == m.started(side, first).lane(side).elapsed(at),
{
}

/// The two lanes' stopwatches under the mutual-exclusion rule.
pub struct ApplicationState {
    config: Config,
    left_timer: Timer,
    right_timer: Timer,
}

impl View for ApplicationState {
    type V = PolicyModel;

    closed spec fn view(&self) -> PolicyModel {
        PolicyModel {
            left: self.left_timer@,
            right: self.right_timer@,
            toggle: self.config.button_toggle,
            left_music: self.config.left_timer.music_file is Some,
            right_music: self.config.right_timer.music_file is Some,
        }
    }
}

impl ApplicationState {
    pub closed spec fn wf(&self) -> bool {
        &&& self.left_timer.wf()
        &&& self.right_timer.wf()
        &&& !(self.left_timer@.is_running() && self.right_timer@.is_running())
    }

    /// The latest instant any lane was started or stopped at.
    pub closed spec fn clock(&self) -> int {
        if self.left_timer.clock() >= self.right_timer.clock() {
            self.left_timer.clock()
        } else {
            self.right_timer.clock()
        }
    }

    /// A well-formed state never has both lanes running.
    pub proof fn lemma_wf_exclusive(&self)
        requires
            self.wf(),
        ensures
            self@.exclusive(),
    {
    }

    pub closed spec fn config_spec(&self) -> &Config {
        &self.config
    }

    pub fn new(config: Config) -> (r: Self)
        ensures
            r.wf(),
            r.clock() == 0,
            r.config_spec() == &config,
            r@.left == (TimerModel { running_since: None, accumulated: 0 }),
            r@.right == (TimerModel { running_since: None, accumulated: 0 }),
            r@.toggle == config.button_toggle,
            r@.left_music == config.left_timer.music_file is Some,
            r@.right_music == config.right_timer.music_file is Some,
    {
        ApplicationState { config, left_timer: Timer::new(), right_timer: Timer::new() }
    }

    pub fn config(&self) -> (r: &Config)
        ensures
            r == self.config_spec(),
            r.button_toggle == self@.toggle,
            r.left_timer.music_file is Some == self@.left_music,
            r.right_timer.music_file is Some == self@.right_music,
    {
        &self.config
    }

    /// The latest instant any lane was started or stopped at.
    pub fn last_instant(&self) -> (r: u64)
        ensures
            r == self.clock(),
    {
        let l = self.left_timer.last_instant();
        let r = self.right_timer.last_instant();
        if l >= r { l } else { r }
    }

    /// The stopwatch of one lane, for reading.
    pub fn timer(&self, side: ButtonSide) -> (r: &Timer)
        requires
            self.wf(),
        ensures
            r.wf(),
            r@ == self@.lane(side),
            r.clock() <= self.clock(),
    {
        match side {
            ButtonSide::Left => &self.left_timer,
            ButtonSide::Right => &self.right_timer,
        }
    }

    /// Zeroes both lanes; any playing cue stops.
    pub fn clear_timers(&mut self) -> (r: AudioAction)
        requires
            old(self).wf(),
        ensures
            final(self).wf(),
            final(self)@ == old(self)@.cleared(),
            final(self).clock() == old(self).clock(),
            final(self).config_spec() == old(self).config_spec(),
            r == AudioAction::Stop,
    {
        self.left_timer.clear();
        self.right_timer.clear();
        AudioAction::Stop
    }

    /// Starts the left lane at `now`, stopping the right one (or, in toggle
    /// mode, stops the left lane if it runs).
    pub fn start_left_timer(&mut self, now: u64) -> (r: AudioAction)
        requires
            old(self).wf(),
            now >= old(self).clock(),
        ensures
            final(self).wf(),
            final(self)@ == old(self)@.started(ButtonSide::Left, now as int),
            r == old(self)@.start_audio(ButtonSide::Left),
            final(self).clock() == now,
            final(self).config_spec() == old(self).config_spec(),
            !final(self)@.right.is_running(),
    {
        if self.left_timer.is_running() && self.config.button_toggle {
            self.left_timer.stop(now);
            return AudioAction::Keep;
        }
        self.right_timer.stop(now);
        self.left_timer.start(now);
        if self.config.left_timer.music_file.is_some() {
            AudioAction::Play(ButtonSide::Left)
        } else {
            AudioAction::Keep
        }
    }

    /// Starts the right lane at `now`, stopping the left one (or, in toggle
    /// mode, stops the right lane if it runs).
    pub fn start_right_timer(&mut self, now: u64) -> (r: AudioAction)
        requires
            old(self).wf(),
            now >= old(self).clock(),
        ensures
            final(self).wf(),
            final(self)@ == old(self)@.started(ButtonSide::Right, now as int),
            r == old(self)@.start_audio(ButtonSide::Right),
            final(self).clock() == now,
            final(self).config_spec() == old(self).config_spec(),
            !final(self)@.left.is_running(),
    {
        if self.right_timer.is_running() && self.config.button_toggle {
            self.right_timer.stop(now);
            return AudioAction::Keep;
        }
        self.left_timer.stop(now);
        self.right_timer.start(now);
        if self.config.right_timer.music_file.is_some() {
            AudioAction::Play(ButtonSide::Right)
        } else {
            AudioAction::Keep
        }
    }

    /// Carries out a command at `now`.
    pub fn apply(&mut self, command: Command, now: u64) -> (r: AudioAction)
        requires
            old(self).wf(),
            now >= old(self).clock(),
        ensures
            final(self).wf(),
            final(self)@ == old(self)@.applied(command, now as int),
            r == old(self)@.apply_audio(command),
            final(self).clock() <= now,
            final(self).config_spec() == old(self).config_spec(),
    {
        match command {
            Command::StartLane(ButtonSide::Left) => self.start_left_timer(now),
            Command::StartLane(ButtonSide::Right) => self.start_right_timer(now),
            Command::ResetAll => self.clear_timers(),
        }
    }
}

} // verus!
