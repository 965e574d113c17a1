use vstd::prelude::*;
use crate::check::Check;
use crate::config::Config;
use crate::span::Span;
use crate::status::Status;

verus! {

/// How loudly the outcome of one completed check is to be reported.
#[derive(Clone, Copy, Debug, PartialEq, Eq, Structural)]
pub enum Level {
    /// Unhealthy, and the most recent check failed
    Error,
    /// Healthy, but the most recent check failed
    Warn,
    /// Unhealthy but the most recent check passed, or just became healthy
    Info,
    /// Healthy, and the most recent check passed
    Debug,
}

/// What the checker reports after one completed check.
#[derive(Clone, Copy, Debug, PartialEq, Eq, Structural)]
pub struct Report {
    /// How loudly to report it
    pub level: Level,
    /// The result of the check just completed
    pub check: Check,
    /// The health status after the check
    pub status: Status,
    /// How many checks in a row, this one included, gave this result
    pub count: u8,
}

/// The state of a periodic health check.
///
/// Default: healthy, last checked at time zero with a passing result, and no
/// checks counted yet.
#[derive(Clone, Copy, Debug, PartialEq, Eq, Structural)]
pub struct State {
    /// The current health status
    pub status: Status,
    /// When the most recent check completed, measured from the checker's start
    pub last_update: Span,
    /// The result of the most recent check
    pub last_check: Check,
    /// How many checks in a row have given `last_check`, saturating at 255
    pub count: u8,
}

impl Config {
    /// How many results `check` in a row it takes to move the status to the
    /// one that `check` stands for.
    pub open spec fn threshold(self, check: Check) -> u8 {
        match check {
            Check::Pass => self.min_successes,
            Check::Failed => self.min_failures,
        }
    }
}

impl Level {
    /// The level at which a check with result `check` is reported that moved
    /// the status from `prior` to `status`.
    pub open spec fn of_outcome(prior: Status, status: Status, check: Check) -> Level {
        match (status, check) {
            (Status::Unhealthy, Check::Failed) => Level::Error,
            (Status::Healthy, Check::Failed) => Level::Warn,
            (Status::Unhealthy, Check::Pass) => Level::Info,
            (Status::Healthy, Check::Pass) => if prior == Status::Unhealthy {
                Level::Info
            } else {
                Level::Debug
            },
        }
    }

    /// The level at which a check with result `check` is reported that moved
    /// the status from `prior` to `status`: an error while unhealthy and still
    /// failing, a warning while healthy but failing, information while
    /// unhealthy but passing or on becoming healthy, and debugging output
    /// while healthy and passing.
    pub fn for_outcome(prior: Status, status: Status, check: Check) -> (level: Level)
        ensures
            level == Level::of_outcome(prior, status, check),
    {
        match (status, check) {
            (Status::Unhealthy, Check::Failed) => Level::Error,
            (Status::Healthy, Check::Failed) => Level::Warn,
            (Status::Unhealthy, Check::Pass) => Level::Info,
            (Status::Healthy, Check::Pass) => {
                if prior == Status::Unhealthy {
                    Level::Info
                } else {
                    Level::Debug
                }
            },
        }
    }
}

impl State {
    /// The number of checks in a row that give `check`, once `check` is
    /// recorded: one where it differs from the last result, else one more,
    /// saturating at 255.
    pub open spec fn next_count(self, check: Check) -> u8 {
        if self.last_check != check {
            1
        } else if self.count == u8::MAX {
            u8::MAX
        } else {
            (self.count + 1) as u8
        }
    }

    /// The status once `check` is recorded as the `count`-th such result in a
    /// row: it turns healthy on a pass once `min_successes` are reached, and
    /// unhealthy on a failure once `min_failures` are reached.
    pub open spec fn next_status(self, check: Check, count: u8, config: Config) -> Status {
        if check == Check::Pass && self.status == Status::Unhealthy && count
            >= config.min_successes {
            Status::Healthy
        } else if check == Check::Failed && self.status == Status::Healthy && count
            >= config.min_failures {
            Status::Unhealthy
        } else {
            self.status
        }
    }

    /// The state once a check with result `check`, completed at `now`, is
    /// recorded.
    pub open spec fn observe(self, check: Check, now: Span, config: Config) -> State {
        let count = self.next_count(check);
        State {
            status: self.next_status(check, count, config),
            last_update: now,
            last_check: check,
            count,
        }
    }

    /// What is reported when a check with result `check`, completed at
    /// `now`, is recorded.
    pub open spec fn report_of(self, check: Check, now: Span, config: Config) -> Report {
        let next = self.observe(check, now, config);
        Report {
            level: Level::of_outcome(self.status, next.status, check),
            check,
            status: next.status,
            count: next.count,
        }
    }

    /// The status as seen at `now` with the given leeway: `None` where more
    /// than `leeway` has passed since the last update, for then the status is
    /// no longer current.
    pub open spec fn status_seen_at(self, now: Span, leeway: Span) -> Option<Status> {
        if now@ - self.last_update@ > leeway@ {
            None
        } else {
            Some(self.status)
        }
    }

    /// Records a check with result `check`, completed at `now`, and returns
    /// what is to be reported about it.
    pub fn record(&mut self, check: Check, now: Span, config: &Config) -> (report: Report)
        ensures
            *final(self) == old(self).observe(check, now, *config),
            report == old(self).report_of(check, now, *config),
    {
        let prior_status = self.status;
        self.last_update = now;
        if self.last_check != check {
            self.count = 0;
        }
        self.count = self.count.saturating_add(1);
        let new_status = if check == Check::Pass && self.status == Status::Unhealthy && self.count
            >= config.min_successes {
            Status::Healthy
        } else if check == Check::Failed && self.status == Status::Healthy && self.count
            >= config.min_failures {
            Status::Unhealthy
        } else {
            self.status
        };
        self.last_check = check;
        self.status = new_status;
        Report {
            level: Level::for_outcome(prior_status, new_status, check),
            check,
            status: new_status,
            count: self.count,
        }
    }

    /// The status as seen at `now`, or `None` where more than `leeway` has
    /// passed since the last update. `now` is not before the last update.
    pub fn status_at(&self, now: Span, leeway: Span) -> (status: Option<Status>)
        requires
            self.last_update@ <= now@,
        ensures
            status == self.status_seen_at(now, leeway),
    {
        match now.checked_sub(&self.last_update) {
            Some(since) => {
                if since.is_longer_than(&leeway) {
                    None
                } else {
                    Some(self.status)
                }
            },
            None => None,
        }
    }
}

impl Default for State {
    fn default() -> (state: State)
        ensures
            state.status == Status::Healthy,
            state.last_update@ == 0,
            state.last_check == Check::Pass,
            state.count == 0,
    {
        State {
            status: Status::Healthy,
            last_update: Span::default(),
            last_check: Check::Pass,
            count: 0,
        }
    }
}

/// `states` is the run of states through which recording `times.len()`
/// checks in a row with result `check`, completed at the given times, leads
/// from `states[0]`.
pub open spec fn is_streak(states: Seq<State>, times: Seq<Span>, check: Check, config: Config) -> bool {
    &&& states.len() == times.len() + 1
    &&& forall|i: int|
        0 <= i < times.len() ==> states[i + 1] == #[trigger] states[i].observe(
            check,
            times[i],
            config,
        )
}

/// The smaller of `n` and 255, the most that a count can hold.
pub open spec fn capped(n: nat) -> nat {
    if n < u8::MAX {
        n
    } else {
        u8::MAX as nat
    }
}

proof fn streak_step(states: Seq<State>, times: Seq<Span>, check: Check, config: Config, j: int)
    requires
        is_streak(states, times, check, config),
        0 <= j < times.len(),
    ensures
        states[j + 1] == states[j].observe(check, times[j], config),
{
}

proof fn streak_counts(states: Seq<State>, times: Seq<Span>, check: Check, config: Config, j: nat)
    requires
        is_streak(states, times, check, config),
        1 <= j <= times.len(),
    ensures
        states[j as int].last_check == check,
        states[j as int].count >= capped(j),
        states[j as int].count >= config.threshold(check) ==> states[j as int].status
            == Status::of_check(check),
    decreases j,
{
    streak_step(states, times, check, config, j - 1);
    if j > 1 {
        streak_counts(states, times, check, config, (j - 1) as nat);
    }
}

proof fn fresh_streak_counts(
    states: Seq<State>,
    times: Seq<Span>,
    check: Check,
    config: Config,
    j: nat,
)
    requires
        is_streak(states, times, check, config),
        states[0].last_check != check,
        states[0].status != Status::of_check(check),
        1 <= j <= times.len(),
    ensures
        states[j as int].last_check == check,
        states[j as int].count == capped(j),
        states[j as int].status == if j >= config.threshold(check) {
            Status::of_check(check)
        } else {
            states[0].status
        },
    decreases j,
{
    streak_step(states, times, check, config, j - 1);
    if j > 1 {
        fresh_streak_counts(states, times, check, config, (j - 1) as nat);
    }
}

/// A run of checks with the same result, at least as long as the threshold
/// for that result and at least one long, leaves the status at the one that
/// result stands for, whatever the state it started from: `min_failures`
/// failures in a row make the check unhealthy, `min_successes` passes in a
/// row make it healthy.
pub proof fn streak_reaches_status(
    states: Seq<State>,
    times: Seq<Span>,
    check: Check,
    config: Config,
)
    requires
        is_streak(states, times, check, config),
        times.len() >= 1,
        times.len() >= config.threshold(check),
    ensures
        states.last().status == Status::of_check(check),
{
    streak_counts(states, times, check, config, times.len());
}

/// Starting from a status that a result does not stand for, and from a last
/// result that differs from it, a run of that result moves the status exactly
/// when the run is as long as the threshold: a healthy check becomes
/// unhealthy after `min_failures` consecutive failures and not before, an
/// unhealthy one becomes healthy after `min_successes` consecutive passes and
/// not before. The count is the length of the run, up to 255.
pub proof fn streak_flips_exactly_at_threshold(
    states: Seq<State>,
    times: Seq<Span>,
    check: Check,
    config: Config,
)
    requires
        is_streak(states, times, check, config),
        states[0].last_check != check,
        states[0].status != Status::of_check(check),
        times.len() >= 1,
    ensures
        states.last().count == capped(times.len()),
        (states.last().status == Status::of_check(check)) <==> times.len() >= config.threshold(
            check,
        ),
{
    fresh_streak_counts(states, times, check, config, times.len());
}

/// One recorded check never moves the status away from the one its result
/// stands for: the status either stays or becomes that of the check. The
/// count is at least one, and the last result and update time are the new
/// ones.
pub proof fn observe_moves_toward_check(s: State, check: Check, now: Span, config: Config)
    ensures
        s.observe(check, now, config).status == s.status || s.observe(check, now, config).status
            == Status::of_check(check),
        s.observe(check, now, config).count >= 1,
        s.observe(check, now, config).last_check == check,
        s.observe(check, now, config).last_update == now,
{
}

/// Right after a check is recorded, its status is current whatever the
/// leeway: seen at the time of the update it is reported as it is.
pub proof fn fresh_update_is_current(
    s: State,
    check: Check,
    now: Span,
    config: Config,
    leeway: Span,
)
    ensures
        s.observe(check, now, config).status_seen_at(now, leeway) == Some(
            s.observe(check, now, config).status,
        ),
{
}

/// The report of a recorded check names the check, the new status and count,
/// and is an error or a warning exactly when the check failed.
pub proof fn report_matches_state(s: State, check: Check, now: Span, config: Config)
    ensures
        s.report_of(check, now, config).check == check,
        s.report_of(check, now, config).status == s.observe(check, now, config).status,
        s.report_of(check, now, config).count == s.observe(check, now, config).count,
        (s.report_of(check, now, config).level == Level::Error || s.report_of(check, now, config).level
            == Level::Warn) <==> check == Check::Failed,
{
}

/// The status is seen as current exactly while no more than the leeway has
/// passed since the last update, measured in nanoseconds whatever the split
/// into seconds: it is then the state's status, and `None` once the elapsed
/// time exceeds the leeway. Staleness only grows with time and shrinks with
/// a longer leeway.
pub proof fn status_stale_exactly_after_leeway(
    s: State,
    now: Span,
    later: Span,
    leeway: Span,
    longer_leeway: Span,
)
    requires
        s.last_update@ <= now@,
        now@ <= later@,
        leeway@ <= longer_leeway@,
    ensures
        s.status_seen_at(now, leeway) is None <==> now@ - s.last_update@ > leeway@,
        now@ - s.last_update@ <= leeway@ ==> s.status_seen_at(now, leeway) == Some(s.status),
        s.status_seen_at(now, leeway) is None ==> s.status_seen_at(later, leeway) is None,
        s.status_seen_at(now, longer_leeway) is None ==> s.status_seen_at(now, leeway) is None,
{
}

/// The count after a recorded check is the length of the current run of
/// equal results, capped at 255, whatever the status: a result that differs
/// from the last one starts a new run of one, an equal one adds one to it.
pub proof fn count_is_run_length(s: State, check: Check, now: Span, config: Config)
    ensures
        s.last_check != check ==> s.observe(check, now, config).count == 1,
        s.last_check == check ==> s.observe(check, now, config).count == capped((s.count + 1) as nat),
        s.report_of(check, now, config).count == s.observe(check, now, config).count,
{
}

/// A pass leaves the check healthy exactly when it was healthy already or the
/// run of passes has reached `min_successes`; a failure leaves it unhealthy
/// exactly when it was unhealthy already or the run of failures has reached
/// `min_failures`.
pub proof fn status_after_check(s: State, check: Check, now: Span, config: Config)
    ensures
        check == Check::Pass ==> ((s.observe(check, now, config).status == Status::Healthy) <==> (
        s.status == Status::Healthy || s.observe(check, now, config).count >= config.min_successes)),
        check == Check::Failed ==> ((s.observe(check, now, config).status == Status::Unhealthy) <==> (
        s.status == Status::Unhealthy || s.observe(check, now, config).count >= config.min_failures)),
{
}

/// The level of a report follows from the check and the statuses before and
/// after it: an error exactly when the check failed and the check is now
/// unhealthy, a warning exactly when it failed and the check is still
/// healthy, information exactly when it passed and the check is unhealthy
/// now or was before, and debugging output exactly when it passed and the
/// check was and stays healthy.
pub proof fn report_level_by_outcome(s: State, check: Check, now: Span, config: Config)
    ensures
        (s.report_of(check, now, config).level == Level::Error) <==> (check == Check::Failed
            && s.observe(check, now, config).status == Status::Unhealthy),
        (s.report_of(check, now, config).level == Level::Warn) <==> (check == Check::Failed
            && s.observe(check, now, config).status == Status::Healthy),
        (s.report_of(check, now, config).level == Level::Info) <==> (check == Check::Pass && (
        s.observe(check, now, config).status == Status::Unhealthy || s.status
            == Status::Unhealthy)),
        (s.report_of(check, now, config).level == Level::Debug) <==> (check == Check::Pass
            && s.observe(check, now, config).status == Status::Healthy && s.status
            == Status::Healthy),
{
}

} // verus!
