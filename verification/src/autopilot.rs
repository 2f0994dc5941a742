//! The autopilot: daemon bookkeeping and the scheduler's tick.
use vstd::prelude::*;
use crate::clock::now_utc;
use crate::cron::{cron_fires, cron_matches};
use crate::error::{ApiError, ApiErrorView};
use crate::model::{
    opt_view, AgentRequest, AgentResult, AutopilotRunRecord, AutopilotSchedule, AutopilotState,
    ExecutionMode, Provider, UtcTime,
};
use crate::number::{
    decimal, decimal_chars, is_digit, lemma_decimal_digits, lemma_parse_decimal, parse_u32,
    parse_u32_spec,
};
use crate::render::{summarize_line, summary_line};
use crate::text::{append_chars, chars_of, eq_str, string_of, trim, trim_chars, trim_end, trim_start};

verus! {

/// Whether `runs` holds a run of the schedule `name` in the same minute as `now`.
pub open spec fn ran_in_minute(runs: Seq<AutopilotRunRecord>, name: Seq<char>, now: UtcTime) -> bool {
    exists|i: int|
        0 <= i < runs.len() && (#[trigger] runs[i]).schedule_name@ == name
            && runs[i].started_at.same_minute(now)
}

/// How many runs the state keeps.
pub const RECENT_RUN_LIMIT: usize = 20;

/// The newest [`RECENT_RUN_LIMIT`] of `runs`, oldest first.
pub open spec fn newest_runs(runs: Seq<AutopilotRunRecord>) -> Seq<AutopilotRunRecord> {
    if runs.len() > RECENT_RUN_LIMIT {
        runs.skip(runs.len() - RECENT_RUN_LIMIT)
    } else {
        runs
    }
}

impl Default for AutopilotState {
    fn default() -> (r: AutopilotState)
        ensures
            !r.running,
            r.daemon_pid is None,
            r.daemon_started_at is None,
            r.daemon_heartbeat_at is None,
            r.last_started_at is None,
            r.last_tick_at is None,
            r.schedule_count == 0,
            r.recent_runs@.len() == 0,
    {
        AutopilotState::fresh(0)
    }
}

impl AutopilotState {
    /// The state of an autopilot that never ran, with `schedule_count` schedules.
    pub fn fresh(schedule_count: usize) -> (r: AutopilotState)
        ensures
            !r.running,
            r.daemon_pid is None,
            r.daemon_started_at is None,
            r.daemon_heartbeat_at is None,
            r.last_started_at is None,
            r.last_tick_at is None,
            r.schedule_count == schedule_count,
            r.recent_runs@.len() == 0,
    {
        AutopilotState {
            running: false,
            daemon_pid: None,
            daemon_started_at: None,
            daemon_heartbeat_at: None,
            last_started_at: None,
            last_tick_at: None,
            schedule_count,
            recent_runs: Vec::new(),
        }
    }

    /// The state reported as status: the stored state, or a fresh one when none
    /// is stored, counting `schedule_count` schedules.
    pub fn observed(stored: Option<AutopilotState>, schedule_count: usize) -> (r: AutopilotState)
        ensures
            r.schedule_count == schedule_count,
            match stored {
                Some(s) => r == (AutopilotState { schedule_count, ..s }),
                None => !r.running && r.daemon_pid is None && r.daemon_started_at is None
                    && r.daemon_heartbeat_at is None && r.last_started_at is None
                    && r.last_tick_at is None && r.recent_runs@.len() == 0,
            },
    {
        match stored {
            Some(s) => AutopilotState { schedule_count, ..s },
            None => AutopilotState::fresh(schedule_count),
        }
    }

    /// Forgets the daemon: not running, no pid, no start or heartbeat time.
    pub fn clear_daemon(&mut self)
        ensures
            *final(self) == (AutopilotState {
                running: false,
                daemon_pid: None,
                daemon_started_at: None,
                daemon_heartbeat_at: None,
                ..*old(self)
            }),
    {
        self.running = false;
        self.daemon_pid = None;
        self.daemon_started_at = None;
        self.daemon_heartbeat_at = None;
    }

    /// Records that the daemon `pid` starts now, with `schedule_count` schedules.
    pub fn mark_started(&mut self, pid: u32, schedule_count: usize)
        ensures
            final(self).running,
            final(self).daemon_pid == Some(pid),
            final(self).daemon_started_at matches Some(t) && t.wf(),
            final(self).daemon_heartbeat_at == final(self).daemon_started_at,
            final(self).last_started_at == final(self).daemon_started_at,
            final(self).last_tick_at == old(self).last_tick_at,
            final(self).schedule_count == schedule_count,
            final(self).recent_runs == old(self).recent_runs,
    {
        let now = now_utc();
        self.running = true;
        self.daemon_pid = Some(pid);
        self.daemon_started_at = Some(now);
        self.daemon_heartbeat_at = Some(now);
        self.last_started_at = Some(now);
        self.schedule_count = schedule_count;
    }

    /// Records that the daemon stopped, with `schedule_count` schedules.
    pub fn mark_stopped(&mut self, schedule_count: usize)
        ensures
            *final(self) == (AutopilotState {
                running: false,
                daemon_pid: None,
                daemon_started_at: None,
                daemon_heartbeat_at: None,
                schedule_count,
                ..*old(self)
            }),
    {
        self.clear_daemon();
        self.schedule_count = schedule_count;
    }

    /// Records a heartbeat of the daemon `pid`, which must own the state.
    pub fn heartbeat(&mut self, pid: u32) -> (r: Result<(), ApiError>)
        ensures
            old(self).daemon_pid == Some(pid) <==> r is Ok,
            r matches Err(e) ==> e@ == ApiErrorView::HeartbeatRejected,
            r is Err ==> *final(self) == *old(self),
            r is Ok ==> (final(self).daemon_heartbeat_at matches Some(t) && t.wf()),
            r is Ok ==> *final(self) == (AutopilotState {
                daemon_heartbeat_at: final(self).daemon_heartbeat_at,
                ..*old(self)
            }),
    {
        if self.daemon_pid != Some(pid) {
            return Err(ApiError::HeartbeatRejected);
        }
        self.daemon_heartbeat_at = Some(now_utc());
        Ok(())
    }

    /// Whether the state holds a run of `schedule_name` in the minute of `now`.
    pub fn already_ran_this_minute(&self, schedule_name: &str, now: &UtcTime) -> (r: bool)
        ensures
            r == ran_in_minute(self.recent_runs@, schedule_name@, *now),
    {
        let mut i: usize = 0;
        while i < self.recent_runs.len()
            invariant
                i <= self.recent_runs@.len(),
                forall|k: int|
                    0 <= k < i ==> !((#[trigger] self.recent_runs@[k]).schedule_name@
                        == schedule_name@ && self.recent_runs@[k].started_at.same_minute(*now)),
            decreases self.recent_runs.len() - i,
        {
            let run = &self.recent_runs[i];
            if eq_str(run.schedule_name.as_str(), schedule_name) && run.started_at.is_same_minute(
                now,
            ) {
                return true;
            }
            i = i + 1;
        }
        false
    }

    /// Closes a scheduler tick at `now`: records the tick, counts
    /// `schedule_count` schedules and keeps only the newest runs.
    pub fn finish_tick(&mut self, now: UtcTime, schedule_count: usize)
        ensures
            final(self).last_tick_at == Some(now),
            final(self).schedule_count == schedule_count,
            final(self).recent_runs@ == newest_runs(old(self).recent_runs@),
            final(self).running == old(self).running,
            final(self).daemon_pid == old(self).daemon_pid,
            final(self).daemon_started_at == old(self).daemon_started_at,
            final(self).daemon_heartbeat_at == old(self).daemon_heartbeat_at,
            final(self).last_started_at == old(self).last_started_at,
    {
        self.last_tick_at = Some(now);
        self.schedule_count = schedule_count;
        let n = self.recent_runs.len();
        if n > RECENT_RUN_LIMIT {
            let kept = self.recent_runs.split_off(n - RECENT_RUN_LIMIT);
            self.recent_runs = kept;
        }
    }
}

/// Refuses to start a daemon while another one, `existing_pid`, is alive.
pub fn daemon_conflict(existing_pid: Option<u32>, alive: bool) -> (r: Result<(), ApiError>)
    ensures
        r is Err <==> existing_pid is Some && alive,
        r matches Err(e) ==> e@ == (ApiErrorView::DaemonAlreadyRunning { pid: existing_pid->0 }),
{
    match existing_pid {
        Some(pid) => if alive {
            Err(ApiError::DaemonAlreadyRunning { pid })
        } else {
            Ok(())
        },
        None => Ok(()),
    }
}

/// What the daemon writes to its pid file: the pid in decimal.
pub fn pid_file_text(pid: u32) -> (r: String)
    ensures
        r@ == decimal(pid as nat),
{
    string_of(&decimal_chars(pid as u64))
}

/// The pid read from a pid file: its trimmed text as a decimal number.
pub fn parse_pid(raw: &str) -> (r: Result<u32, ApiError>)
    ensures
        match r {
            Ok(pid) => parse_u32_spec(trim(raw@)) == Some(pid),
            Err(e) => parse_u32_spec(trim(raw@)) is None && e@ == ApiErrorView::InvalidPidFile,
        },
{
    match parse_u32(&trim_chars(&chars_of(raw))) {
        Some(pid) => Ok(pid),
        None => Err(ApiError::InvalidPidFile),
    }
}


/// Whether `schedule` is due at `now`: it is enabled, its cron expression
/// fires at `now`, and it has not run yet in that minute according to `runs`.
pub open spec fn schedule_due(
    schedule: AutopilotSchedule,
    runs: Seq<AutopilotRunRecord>,
    now: UtcTime,
) -> Result<bool, ApiErrorView> {
    if !schedule.enabled {
        Ok(false)
    } else {
        match cron_fires(schedule.cron@, now) {
            Ok(true) => Ok(!ran_in_minute(runs, schedule.name@, now)),
            other => other,
        }
    }
}

/// The first schedule at or after position `from` that is due at `now`; an
/// unreadable cron expression met on the way is an error.
pub open spec fn next_due_from(
    schedules: Seq<AutopilotSchedule>,
    from: int,
    runs: Seq<AutopilotRunRecord>,
    now: UtcTime,
) -> Result<Option<int>, ApiErrorView>
    decreases schedules.len() - from,
{
    if from < 0 || from >= schedules.len() {
        Ok(None)
    } else {
        match schedule_due(schedules[from], runs, now) {
            Err(e) => Err(e),
            Ok(true) => Ok(Some(from)),
            Ok(false) => next_due_from(schedules, from + 1, runs, now),
        }
    }
}

/// The agent request that runs `schedule`: its command after `run: ` when it
/// has one, otherwise its prompt; its provider, Anthropic by default; run asynchronously.
pub open spec fn request_matches(request: AgentRequest, schedule: AutopilotSchedule) -> bool {
    &&& request.prompt@ == match opt_view(schedule.command) {
        Some(c) => "run: "@ + c,
        None => schedule.prompt@,
    }
    &&& request.provider == match schedule.provider {
        Some(p) => p,
        None => Provider::Anthropic,
    }
    &&& request.mode == ExecutionMode::Async
}

/// The record of running `schedule` at `now` with outcome `result`: it succeeded
/// when at least one command ran and every command succeeded; its summary names
/// the command, or else is the first line of the agent's output.
pub open spec fn record_matches(
    record: AutopilotRunRecord,
    schedule: AutopilotSchedule,
    now: UtcTime,
    result: AgentResult,
) -> bool {
    &&& record.schedule_name@ == schedule.name@
    &&& record.started_at == now
    &&& record.summary@ == match opt_view(schedule.command) {
        Some(c) => "executed "@ + c,
        None => summary_line(result.output@),
    }
    &&& record.success == (result.commands@.len() > 0 && forall|i: int|
        0 <= i < result.commands@.len() ==> (#[trigger] result.commands@[i]).success)
}

/// The agent request that runs `schedule`.
pub fn schedule_request(schedule: &AutopilotSchedule) -> (r: AgentRequest)
    ensures
        request_matches(r, *schedule),
{
    let prompt = match &schedule.command {
        Some(c) => {
            let mut v = chars_of("run: ");
            append_chars(&mut v, &chars_of(c.as_str()));
            string_of(&v)
        },
        None => schedule.prompt.clone(),
    };
    let provider = match schedule.provider {
        Some(p) => p,
        None => Provider::Anthropic,
    };
    AgentRequest { prompt, provider, mode: ExecutionMode::Async }
}

/// The record of running `schedule` at `now` with outcome `result`.
pub fn run_record(schedule: &AutopilotSchedule, now: UtcTime, result: &AgentResult) -> (r:
    AutopilotRunRecord)
    ensures
        record_matches(r, *schedule, now, *result),
{
    let summary = match &schedule.command {
        Some(c) => {
            let mut v = chars_of("executed ");
            append_chars(&mut v, &chars_of(c.as_str()));
            string_of(&v)
        },
        None => summarize_line(result.output.as_str()),
    };
    let mut all_ok = true;
    let mut i: usize = 0;
    while i < result.commands.len()
        invariant
            i <= result.commands@.len(),
            all_ok == forall|k: int| 0 <= k < i ==> (#[trigger] result.commands@[k]).success,
        decreases result.commands.len() - i,
    {
        all_ok = all_ok && result.commands[i].success;
        i = i + 1;
    }
    AutopilotRunRecord {
        schedule_name: schedule.name.clone(),
        started_at: now,
        summary,
        success: all_ok && result.commands.len() > 0,
    }
}

/// What a whole tick at `now` leaves of the state `s0` it started from, with
/// `schedule_count` schedules counted and `runs` recorded: the daemon fields of
/// `s0`, the tick at `now`, the count, and the newest of `s0`'s runs followed
/// by `runs`.
pub open spec fn tick_outcome(
    s0: AutopilotState,
    now: UtcTime,
    schedule_count: usize,
    runs: Seq<AutopilotRunRecord>,
    s1: AutopilotState,
) -> bool {
    &&& s1.running == s0.running
    &&& s1.daemon_pid == s0.daemon_pid
    &&& s1.daemon_started_at == s0.daemon_started_at
    &&& s1.daemon_heartbeat_at == s0.daemon_heartbeat_at
    &&& s1.last_started_at == s0.last_started_at
    &&& s1.last_tick_at == Some(now)
    &&& s1.schedule_count == schedule_count
    &&& s1.recent_runs@ == newest_runs(s0.recent_runs@ + runs)
}

/// One pass of the scheduler over the schedules at the moment `now`: it hands
/// out the due schedules one at a time and records their runs in `state`.
pub struct SchedulerTick {
    pub schedules: Vec<AutopilotSchedule>,
    pub state: AutopilotState,
    pub now: UtcTime,
    /// The position from which due schedules are still looked for.
    pub next: usize,
    /// The schedule whose run was handed out and not yet recorded.
    pub pending: Option<usize>,
    /// The runs recorded in this tick.
    pub runs: Vec<AutopilotRunRecord>,
    /// The state the tick started from.
    pub start_state: Ghost<AutopilotState>,
}

impl SchedulerTick {
    /// The state is the one the tick started from, its runs followed by the
    /// runs recorded in this tick.
    pub open spec fn tracks(self) -> bool {
        &&& self.state.recent_runs@ == self.start_state@.recent_runs@ + self.runs@
        &&& self.state == (AutopilotState { recent_runs: self.state.recent_runs, ..self.start_state@ })
    }

    /// Every schedule before `next` is not due, and a pending schedule is the
    /// one at `next`, which is due.
    pub open spec fn settled(self) -> bool {
        &&& self.next <= self.schedules@.len()
        &&& forall|k: int|
            0 <= k < self.next ==> schedule_due(
                #[trigger] self.schedules@[k],
                self.state.recent_runs@,
                self.now,
            ) == Ok::<bool, ApiErrorView>(false)
        &&& self.pending matches Some(j) ==> {
            &&& j == self.next
            &&& j < self.schedules@.len()
            &&& schedule_due(self.schedules@[j as int], self.state.recent_runs@, self.now) == Ok::<
                bool,
                ApiErrorView,
            >(true)
        }
    }

    /// Starts a tick over `schedules` at `now`; there is none while the
    /// autopilot is not running.
    pub fn start(schedules: Vec<AutopilotSchedule>, state: AutopilotState, now: UtcTime) -> (r:
        Option<SchedulerTick>)
        ensures
            r is Some <==> state.running,
            r matches Some(t) ==> t.schedules == schedules && t.state == state && t.now == now
                && t.next == 0 && t.pending is None && t.runs@.len() == 0 && t.settled()
                && t.start_state@ == state && t.tracks(),
    {
        if !state.running {
            return None;
        }
        let ghost start_state = state;
        let tick = SchedulerTick {
            schedules,
            state,
            now,
            next: 0,
            pending: None,
            runs: Vec::new(),
            start_state: Ghost(start_state),
        };
        assert(tick.start_state@.recent_runs@ + tick.runs@ =~= tick.state.recent_runs@);
        Some(tick)
    }

    /// Finds the next due schedule and hands out the request that runs it; gives
    /// nothing once no schedule is left, and fails on an unreadable cron expression.
    pub fn next_request(&mut self) -> (r: Result<Option<AgentRequest>, ApiError>)
        ensures
            final(self).schedules == old(self).schedules,
            final(self).state == old(self).state,
            final(self).now == old(self).now,
            final(self).runs == old(self).runs,
            final(self).start_state == old(self).start_state,
            old(self).tracks() ==> final(self).tracks(),
            match r {
                Err(e) => next_due_from(
                    old(self).schedules@,
                    old(self).next as int,
                    old(self).state.recent_runs@,
                    old(self).now,
                ) == Err::<Option<int>, ApiErrorView>(e@) && *final(self) == *old(self),
                Ok(None) => next_due_from(
                    old(self).schedules@,
                    old(self).next as int,
                    old(self).state.recent_runs@,
                    old(self).now,
                ) == Ok::<Option<int>, ApiErrorView>(None) && final(self).next
                    == final(self).schedules@.len() && final(self).pending is None,
                Ok(Some(req)) => final(self).pending matches Some(j) && next_due_from(
                    old(self).schedules@,
                    old(self).next as int,
                    old(self).state.recent_runs@,
                    old(self).now,
                ) == Ok::<Option<int>, ApiErrorView>(Some(j as int)) && final(self).next == j
                    && request_matches(req, final(self).schedules@[j as int]),
            },
            old(self).settled() ==> final(self).settled(),
    {
        let ghost sched = self.schedules@;
        let ghost runs = self.state.recent_runs@;
        let ghost start = self.next as int;
        let ghost before = *self;
        proof {
            lemma_next_due(sched, start, runs, self.now);
        }
        let mut i: usize = self.next;
        while i < self.schedules.len()
            invariant
                *self == before,
                before == *old(self),
                sched == self.schedules@,
                runs == self.state.recent_runs@,
                start <= i,
                start == self.next,
                next_due_from(sched, start, runs, self.now) == next_due_from(sched, i as int, runs, self.now),
                forall|k: int| start <= k < i ==> schedule_due(#[trigger] sched[k], runs, self.now)
                    == Ok::<bool, ApiErrorView>(false),
            decreases self.schedules.len() - i,
        {
            let s = &self.schedules[i];
            if s.enabled {
                let fires = match cron_matches(s.cron.as_str(), &self.now) {
                    Ok(f) => f,
                    Err(e) => return Err(e),
                };
                if fires && !self.state.already_ran_this_minute(s.name.as_str(), &self.now) {
                    let req = schedule_request(s);
                    self.next = i;
                    self.pending = Some(i);
                    return Ok(Some(req));
                }
            }
            i = i + 1;
        }
        self.next = self.schedules.len();
        self.pending = None;
        Ok(None)
    }

    /// Records the run of the pending schedule with outcome `result`.
    pub fn complete(&mut self, result: &AgentResult)
        requires
            old(self).pending is Some,
            old(self).pending->0 < old(self).schedules@.len(),
        ensures
            final(self).schedules == old(self).schedules,
            final(self).now == old(self).now,
            final(self).start_state == old(self).start_state,
            old(self).tracks() ==> final(self).tracks(),
            final(self).next == old(self).pending->0 + 1,
            final(self).pending is None,
            final(self).runs@.len() == old(self).runs@.len() + 1,
            final(self).runs@.drop_last() == old(self).runs@,
            final(self).state.recent_runs@ == old(self).state.recent_runs@.push(final(self).runs@.last()),
            record_matches(
                final(self).runs@.last(),
                old(self).schedules@[old(self).pending->0 as int],
                old(self).now,
                *result,
            ),
            final(self).state == (AutopilotState { recent_runs: final(self).state.recent_runs, ..old(self).state }),
            old(self).settled() ==> final(self).settled(),
    {
        let j = match self.pending {
            Some(j) => j,
            None => 0,
        };
        assert(j < self.schedules.len());
        let record = run_record(&self.schedules[j], self.now, result);
        let ghost runs = self.state.recent_runs@;
        let ghost was_settled = self.settled();
        self.state.recent_runs.push(record.duplicate());
        self.runs.push(record);
        assert(self.runs@.drop_last() =~= old(self).runs@);
        assert(old(self).tracks() ==> self.start_state@.recent_runs@ + self.runs@ =~= self.state.recent_runs@);
        self.next = j + 1;
        self.pending = None;
        proof {
            if was_settled {
                let sched = self.schedules@;
                assert forall|k: int| 0 <= k < self.next implies schedule_due(
                    #[trigger] sched[k],
                    self.state.recent_runs@,
                    self.now,
                ) == Ok::<bool, ApiErrorView>(false) by {
                    if k < j {
                        lemma_more_runs_keep_not_due(sched[k], runs, record, self.now);
                    } else {
                        lemma_recorded_run_not_due(sched[k], runs, record, self.now);
                    }
                }
            }
        }
    }

    /// Closes the tick with `schedule_count` schedules counted, giving the
    /// state to keep and the runs recorded in this tick.
    pub fn finish(self, schedule_count: usize) -> (r: (AutopilotState, Vec<AutopilotRunRecord>))
        ensures
            r.0.last_tick_at == Some(self.now),
            r.0.schedule_count == schedule_count,
            r.0.recent_runs@ == newest_runs(self.state.recent_runs@),
            r.0 == (AutopilotState {
                last_tick_at: r.0.last_tick_at,
                schedule_count,
                recent_runs: r.0.recent_runs,
                ..self.state
            }),
            r.1 == self.runs,
            self.tracks() ==> tick_outcome(self.start_state@, self.now, schedule_count, r.1@, r.0),
    {
        let mut state = self.state;
        state.finish_tick(self.now, schedule_count);
        (state, self.runs)
    }
}

/// The runs a state keeps are the newest of the runs it had: at most
/// [`RECENT_RUN_LIMIT`] of them, the last ones in order, and all of them when
/// there are no more than that.
pub proof fn lemma_newest_runs_kept(runs: Seq<AutopilotRunRecord>)
    ensures
        newest_runs(runs).len() <= RECENT_RUN_LIMIT,
        newest_runs(runs).len() <= runs.len(),
        newest_runs(runs) == runs.skip(runs.len() - newest_runs(runs).len()),
        runs.len() <= RECENT_RUN_LIMIT ==> newest_runs(runs) == runs,
{
    if runs.len() <= RECENT_RUN_LIMIT {
        assert(runs.skip(0) =~= runs);
    }
}

/// A whole tick from the state `s0`, which recorded `runs`, leaves a running
/// autopilot running and a stopped one stopped, records the tick at `now` and
/// the schedule count, and keeps the last `min(RECENT_RUN_LIMIT, n)` of the
/// `n` runs of `s0` followed by `runs`: all of them when they are no more.
pub proof fn lemma_whole_tick(
    s0: AutopilotState,
    now: UtcTime,
    schedule_count: usize,
    runs: Seq<AutopilotRunRecord>,
    s1: AutopilotState,
)
    requires
        tick_outcome(s0, now, schedule_count, runs, s1),
    ensures
        s1.running == s0.running,
        s1.last_tick_at == Some(now),
        s1.schedule_count == schedule_count,
        s1.recent_runs@.len() == if s0.recent_runs@.len() + runs.len() <= RECENT_RUN_LIMIT {
            s0.recent_runs@.len() + runs.len()
        } else {
            RECENT_RUN_LIMIT as nat
        },
        s1.recent_runs@ == (s0.recent_runs@ + runs).skip(
            s0.recent_runs@.len() + runs.len() - s1.recent_runs@.len(),
        ),
{
    lemma_newest_runs_kept(s0.recent_runs@ + runs);
}

proof fn lemma_next_due(
    schedules: Seq<AutopilotSchedule>,
    from: int,
    runs: Seq<AutopilotRunRecord>,
    now: UtcTime,
)
    requires
        0 <= from,
    ensures
        match next_due_from(schedules, from, runs, now) {
            Ok(Some(j)) => from <= j < schedules.len() && schedule_due(schedules[j], runs, now)
                == Ok::<bool, ApiErrorView>(true) && forall|k: int|
                from <= k < j ==> schedule_due(#[trigger] schedules[k], runs, now) == Ok::<
                    bool,
                    ApiErrorView,
                >(false),
            Ok(None) => forall|k: int|
                from <= k < schedules.len() ==> schedule_due(#[trigger] schedules[k], runs, now)
                    == Ok::<bool, ApiErrorView>(false),
            Err(_) => true,
        },
    decreases schedules.len() - from,
{
    if from < schedules.len() {
        lemma_next_due(schedules, from + 1, runs, now);
    }
}

proof fn lemma_nothing_due(
    schedules: Seq<AutopilotSchedule>,
    from: int,
    runs: Seq<AutopilotRunRecord>,
    now: UtcTime,
)
    requires
        0 <= from,
        forall|k: int|
            from <= k < schedules.len() ==> schedule_due(#[trigger] schedules[k], runs, now)
                == Ok::<bool, ApiErrorView>(false),
    ensures
        next_due_from(schedules, from, runs, now) == Ok::<Option<int>, ApiErrorView>(None),
    decreases schedules.len() - from,
{
    if from < schedules.len() {
        lemma_nothing_due(schedules, from + 1, runs, now);
    }
}

proof fn lemma_more_runs_keep_not_due(
    schedule: AutopilotSchedule,
    runs: Seq<AutopilotRunRecord>,
    extra: AutopilotRunRecord,
    now: UtcTime,
)
    requires
        schedule_due(schedule, runs, now) == Ok::<bool, ApiErrorView>(false),
    ensures
        schedule_due(schedule, runs.push(extra), now) == Ok::<bool, ApiErrorView>(false),
{
    if schedule.enabled && cron_fires(schedule.cron@, now) == Ok::<bool, ApiErrorView>(true) {
        let i = choose|i: int|
            0 <= i < runs.len() && (#[trigger] runs[i]).schedule_name@ == schedule.name@
                && runs[i].started_at.same_minute(now);
        assert(runs.push(extra)[i] == runs[i]);
    }
}

proof fn lemma_recorded_run_not_due(
    schedule: AutopilotSchedule,
    runs: Seq<AutopilotRunRecord>,
    record: AutopilotRunRecord,
    now: UtcTime,
)
    requires
        schedule_due(schedule, runs, now) == Ok::<bool, ApiErrorView>(true),
        record.schedule_name@ == schedule.name@,
        record.started_at == now,
    ensures
        schedule_due(schedule, runs.push(record), now) == Ok::<bool, ApiErrorView>(false),
{
    assert(runs.push(record)[runs.len() as int] == record);
}

/// Once a tick has handed out every due schedule, a second tick at the same
/// moment over the same schedules finds nothing due in the runs the first one
/// keeps, as long as every run it drops is from another minute.
pub proof fn lemma_second_tick_finds_nothing(tick: SchedulerTick)
    requires
        tick.settled(),
        tick.next == tick.schedules@.len(),
        forall|i: int|
            0 <= i < tick.state.recent_runs@.len() - newest_runs(tick.state.recent_runs@).len()
                ==> !(#[trigger] tick.state.recent_runs@[i]).started_at.same_minute(tick.now),
    ensures
        next_due_from(tick.schedules@, 0, newest_runs(tick.state.recent_runs@), tick.now)
            == Ok::<Option<int>, ApiErrorView>(None),
{
    let runs = tick.state.recent_runs@;
    let kept = newest_runs(runs);
    lemma_newest_runs_kept(runs);
    let d = runs.len() - kept.len();
    assert forall|k: int| 0 <= k < tick.schedules@.len() implies schedule_due(
        #[trigger] tick.schedules@[k],
        kept,
        tick.now,
    ) == Ok::<bool, ApiErrorView>(false) by {
        let sch = tick.schedules@[k];
        assert(schedule_due(sch, runs, tick.now) == Ok::<bool, ApiErrorView>(false));
        if sch.enabled && cron_fires(sch.cron@, tick.now) == Ok::<bool, ApiErrorView>(true) {
            let i = choose|i: int|
                0 <= i < runs.len() && (#[trigger] runs[i]).schedule_name@ == sch.name@
                    && runs[i].started_at.same_minute(tick.now);
            assert(i >= d);
            assert(kept[i - d] == runs[i]);
        }
    }
    lemma_nothing_due(tick.schedules@, 0, kept, tick.now);
}

/// Reading back the pid file written for `pid` gives `pid`.
pub proof fn lemma_pid_file_round_trip(pid: u32)
    ensures
        parse_u32_spec(trim(decimal(pid as nat))) == Some(pid),
{
    let d = decimal(pid as nat);
    lemma_parse_decimal(pid);
    lemma_decimal_digits(pid as nat);
    assert(is_digit(d[0]) && is_digit(d.last()));
    assert(trim_start(d) == d);
    assert(trim_end(d) == d);
}

/// A schedule already ran in the minute of `now` exactly when a kept run of it
/// started in the same year, month, day, hour and minute as `now`.
pub proof fn lemma_ran_in_minute_fields(runs: Seq<AutopilotRunRecord>, name: Seq<char>, now: UtcTime)
    ensures
        ran_in_minute(runs, name, now) <==> exists|i: int|
            0 <= i < runs.len() && (#[trigger] runs[i]).schedule_name@ == name
                && runs[i].started_at.year == now.year && runs[i].started_at.month == now.month
                && runs[i].started_at.day == now.day && runs[i].started_at.hour == now.hour
                && runs[i].started_at.minute == now.minute,
{
}

/// A schedule is due at `now` exactly when it is enabled, its cron expression
/// fires at `now`, and no kept run of it started in the same year, month,
/// day, hour and minute; a disabled schedule is never due and never an error.
pub proof fn lemma_due_schedule(schedule: AutopilotSchedule, runs: Seq<AutopilotRunRecord>, now: UtcTime)
    ensures
        schedule_due(schedule, runs, now) == Ok::<bool, ApiErrorView>(true) <==> {
            &&& schedule.enabled
            &&& cron_fires(schedule.cron@, now) == Ok::<bool, ApiErrorView>(true)
            &&& !exists|i: int|
                0 <= i < runs.len() && (#[trigger] runs[i]).schedule_name@ == schedule.name@
                    && runs[i].started_at.year == now.year && runs[i].started_at.month == now.month
                    && runs[i].started_at.day == now.day && runs[i].started_at.hour == now.hour
                    && runs[i].started_at.minute == now.minute
        },
        !schedule.enabled ==> schedule_due(schedule, runs, now) == Ok::<bool, ApiErrorView>(false),
        schedule.enabled && cron_fires(schedule.cron@, now) == Ok::<bool, ApiErrorView>(false)
            ==> schedule_due(schedule, runs, now) == Ok::<bool, ApiErrorView>(false),
{
    lemma_ran_in_minute_fields(runs, schedule.name@, now);
}

} // verus!
