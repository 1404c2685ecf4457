use vstd::prelude::*;
use crate::game_run::{GameRun, GameRunError, GameRunView, LevelStatus};
use bevy::time::{Timer, TimerMode};
use std::time::Duration;

verus! {

/// Lead-out after a won level, in nanoseconds.
pub const LEAD_OUT_TIME_SUCCESS_NS: u64 = 1_000_000_000;

/// Lead-out after a lost level, in nanoseconds.
pub const LEAD_OUT_TIME_FAIL_NS: u64 = 3_000_000_000;

/// Marker of the entities that belong to the level being played.
#[derive(Clone, Copy, Debug)]
pub struct Level;

/// Whether an enemy has to be destroyed for its level to be won.
#[derive(Clone, Copy, Debug, PartialEq, Eq, Structural)]
pub enum EnemyDestruction {
    Required,
    Optional,
}

/// The number of enemies in `enemies` whose destruction is required.
pub open spec fn count_required(enemies: Seq<EnemyDestruction>) -> nat
    decreases enemies.len(),
{
    if enemies.len() == 0 {
        0
    } else {
        count_required(enemies.drop_last()) + if enemies.last() == EnemyDestruction::Required {
            1nat
        } else {
            0nat
        }
    }
}

/// The counters and outcome of the level being played.
#[derive(Clone, Copy, Debug, PartialEq, Eq, Structural)]
pub struct LevelStats {
    pub enemies_destroyed: u32,
    pub success: Option<bool>,
    pub total_enemies: u32,
}

impl LevelStats {
    /// Fresh stats of a level with `total_enemies` required enemies.
    pub fn new(total_enemies: u32) -> (r: Self)
        ensures
            r == (LevelStats { enemies_destroyed: 0, success: None, total_enemies }),
    {
        LevelStats { enemies_destroyed: 0, success: None, total_enemies }
    }
}

/// The number of required enemies in `enemies`.
pub fn required_enemy_count(enemies: &Vec<EnemyDestruction>) -> (r: u32)
    requires
        enemies@.len() <= u32::MAX,
    ensures
        r == count_required(enemies@),
{
    let mut n: u32 = 0;
    let mut i: usize = 0;
    while i < enemies.len()
        invariant
            i <= enemies@.len(),
            enemies@.len() <= u32::MAX,
            n == count_required(enemies@.subrange(0, i as int)),
            n <= i,
        decreases enemies@.len() - i,
    {
        proof {
            assert(enemies@.subrange(0, i + 1).drop_last() =~= enemies@.subrange(0, i as int));
        }
        if enemies[i] == EnemyDestruction::Required {
            n = n + 1;
        }
        i = i + 1;
    }
    assert(enemies@.subrange(0, i as int) =~= enemies@);
    n
}

/// Whether any enemy in `enemies` is a required one.
fn any_required(enemies: &Vec<EnemyDestruction>) -> (r: bool)
    ensures
        r == (count_required(enemies@) > 0),
{
    let mut i: usize = 0;
    while i < enemies.len()
        invariant
            i <= enemies@.len(),
            count_required(enemies@.subrange(0, i as int)) == 0,
        decreases enemies@.len() - i,
    {
        proof {
            assert(enemies@.subrange(0, i + 1).drop_last() =~= enemies@.subrange(0, i as int));
        }
        if enemies[i] == EnemyDestruction::Required {
            proof {
                lemma_count_required_positive(enemies@, i as int);
            }
            return true;
        }
        i = i + 1;
    }
    assert(enemies@.subrange(0, i as int) =~= enemies@);
    false
}

proof fn lemma_count_required_positive(enemies: Seq<EnemyDestruction>, i: int)
    requires
        0 <= i < enemies.len(),
        enemies[i] == EnemyDestruction::Required,
    ensures
        count_required(enemies) > 0,
    decreases enemies.len(),
{
    if i < enemies.len() - 1 {
        lemma_count_required_positive(enemies.drop_last(), i);
    }
}

/// The lifecycle of the level being played.
#[derive(Clone, Copy, Debug, PartialEq, Eq, Structural)]
pub enum LevelState {
    Loading,
    Ready,
    Playing,
    Complete,
}

impl Default for LevelState {
    fn default() -> (r: LevelState)
        ensures
            r == LevelState::Loading,
    {
        LevelState::Loading
    }
}

/// A lead-out timer, as mathematical values.
pub struct TimerView {
    pub duration: nat,
    pub elapsed: nat,
    pub finished: bool,
    pub just_finished: bool,
}

impl TimerView {
    /// An armed timer that has not run yet.
    pub open spec fn armed(duration: nat) -> TimerView {
        TimerView { duration, elapsed: 0, finished: false, just_finished: false }
    }

    /// The timer after `delta` more time: it stops at its duration, and the tick on
    /// which it reaches it is the one on which it has just finished.
    pub open spec fn ticked(self, delta: nat) -> TimerView {
        if self.finished {
            TimerView { just_finished: false, ..self }
        } else if self.elapsed + delta >= self.duration {
            TimerView { elapsed: self.duration, finished: true, just_finished: true, ..self }
        } else {
            TimerView { elapsed: self.elapsed + delta, finished: false, just_finished: false, ..self }
        }
    }

    /// The timer after each of `deltas` in turn.
    pub open spec fn ticked_all(self, deltas: Seq<nat>) -> TimerView
        decreases deltas.len(),
    {
        if deltas.len() == 0 {
            self
        } else {
            self.ticked(deltas[0]).ticked_all(deltas.drop_first())
        }
    }

    /// How many of the ticks `deltas` are ones on which the timer has just finished.
    pub open spec fn finish_edges(self, deltas: Seq<nat>) -> nat
        decreases deltas.len(),
    {
        if deltas.len() == 0 {
            0
        } else {
            let next = self.ticked(deltas[0]);
            (if next.just_finished { 1nat } else { 0nat }) + next.finish_edges(deltas.drop_first())
        }
    }
}

/// The sum of `deltas`.
pub open spec fn total_time(deltas: Seq<nat>) -> nat
    decreases deltas.len(),
{
    if deltas.len() == 0 {
        0
    } else {
        deltas[0] + total_time(deltas.drop_first())
    }
}

/// Relies on bevy's `Timer::new`, `Timer::set_elapsed` and `Timer::tick` in
/// `TimerMode::Once`, on a timer at `elapsed_ns` of `duration_ns` that has not
/// finished yet: the tick adds `delta_ns` to the elapsed time, and
/// once that reaches the duration the timer is finished, its elapsed time is set
/// to the duration and `just_finished` holds.
#[verifier::external_body]
fn bevy_timer_tick(duration_ns: u64, elapsed_ns: u64, delta_ns: u64) -> (r: (u64, bool, bool))
    requires
        elapsed_ns <= duration_ns,
    ensures
        elapsed_ns + delta_ns >= duration_ns ==> r == (duration_ns, true, true),
        elapsed_ns + delta_ns < duration_ns ==> r == ((elapsed_ns + delta_ns) as u64, false, false),
{
    let mut timer = Timer::new(Duration::from_nanos(duration_ns), TimerMode::Once);
    timer.set_elapsed(Duration::from_nanos(elapsed_ns));
    timer.tick(Duration::from_nanos(delta_ns));
    (timer.elapsed().as_nanos() as u64, timer.finished(), timer.just_finished())
}

/// The timer that delays the level summary after a level is decided.
#[derive(Clone, Copy, Debug)]
pub struct LeadOutTimer {
    duration_ns: u64,
    elapsed_ns: u64,
    finished: bool,
    just_finished: bool,
}

impl View for LeadOutTimer {
    type V = TimerView;

    closed spec fn view(&self) -> TimerView {
        TimerView {
            duration: self.duration_ns as nat,
            elapsed: self.elapsed_ns as nat,
            finished: self.finished,
            just_finished: self.just_finished,
        }
    }
}

impl LeadOutTimer {
    /// Elapsed time never passes the duration; it reaches it exactly when finished.
    pub closed spec fn wf(&self) -> bool {
        &&& self.elapsed_ns <= self.duration_ns
        &&& self.finished ==> self.elapsed_ns == self.duration_ns
        &&& self.just_finished ==> self.finished
    }

    /// A timer of no duration, not started.
    pub fn new() -> (r: Self)
        ensures
            r.wf(),
            r@ == TimerView::armed(0),
    {
        LeadOutTimer { duration_ns: 0, elapsed_ns: 0, finished: false, just_finished: false }
    }

    /// Sets the duration and starts over from no elapsed time.
    pub fn arm(&mut self, duration_ns: u64)
        ensures
            final(self).wf(),
            final(self)@ == TimerView::armed(duration_ns as nat),
    {
        self.duration_ns = duration_ns;
        self.elapsed_ns = 0;
        self.finished = false;
        self.just_finished = false;
    }

    /// Lets `delta_ns` nanoseconds pass.
    pub fn tick(&mut self, delta_ns: u64)
        requires
            old(self).wf(),
        ensures
            final(self).wf(),
            final(self)@ == old(self)@.ticked(delta_ns as nat),
    {
        if self.finished {
            self.just_finished = false;
        } else {
            let (elapsed, finished, just_finished) = bevy_timer_tick(
                self.duration_ns,
                self.elapsed_ns,
                delta_ns,
            );
            self.elapsed_ns = elapsed;
            self.finished = finished;
            self.just_finished = just_finished;
        }
    }

    pub fn finished(&self) -> (r: bool)
        ensures
            r == self@.finished,
    {
        self.finished
    }

    pub fn just_finished(&self) -> (r: bool)
        ensures
            r == self@.just_finished,
    {
        self.just_finished
    }

    pub fn duration_ns(&self) -> (r: u64)
        ensures
            r == self@.duration,
    {
        self.duration_ns
    }

    pub fn elapsed_ns(&self) -> (r: u64)
        ensures
            r == self@.elapsed,
    {
        self.elapsed_ns
    }
}

proof fn lemma_finished_timer_has_no_edge(t: TimerView, deltas: Seq<nat>)
    requires
        t.finished,
    ensures
        t.finish_edges(deltas) == 0,
        t.ticked_all(deltas).finished,
    decreases deltas.len(),
{
    if deltas.len() > 0 {
        lemma_finished_timer_has_no_edge(t.ticked(deltas[0]), deltas.drop_first());
    }
}

/// Whatever time passes in whatever ticks, a lead-out timer has just finished on at
/// most one of them.
pub proof fn lemma_lead_out_finishes_at_most_once(t: TimerView, deltas: Seq<nat>)
    ensures
        t.finish_edges(deltas) <= 1,
    decreases deltas.len(),
{
    if deltas.len() > 0 {
        let next = t.ticked(deltas[0]);
        if next.finished {
            lemma_finished_timer_has_no_edge(next, deltas.drop_first());
        } else {
            lemma_lead_out_finishes_at_most_once(next, deltas.drop_first());
        }
    }
}

/// A running lead-out timer has just finished on exactly one of the ticks `deltas`
/// when they bring it to its duration, and on none otherwise.
pub proof fn lemma_lead_out_finishes_once(t: TimerView, deltas: Seq<nat>)
    requires
        !t.finished,
    ensures
        t.finish_edges(deltas) == 1 <==> deltas.len() > 0 && t.elapsed + total_time(deltas)
            >= t.duration,
        t.finish_edges(deltas) == 0 <==> !(deltas.len() > 0 && t.elapsed + total_time(deltas)
            >= t.duration),
    decreases deltas.len(),
{
    lemma_lead_out_finishes_at_most_once(t, deltas);
    if deltas.len() > 0 {
        let next = t.ticked(deltas[0]);
        let rest = deltas.drop_first();
        assert(total_time(deltas) == deltas[0] + total_time(rest));
        if rest.len() == 0 {
            assert(total_time(rest) == 0);
        }
        if next.finished {
            lemma_finished_timer_has_no_edge(next, rest);
        } else {
            lemma_lead_out_finishes_once(next, rest);
        }
    }
}

/// What a level session holds, as mathematical values.
pub struct LevelSessionView {
    pub run: GameRunView,
    pub state: LevelState,
    pub stats: LevelStats,
    pub lead_out: TimerView,
}

impl LevelSessionView {
    /// The session right after entering `Complete` with the outcome `success`: the
    /// outcome is recorded at the cursor and the lead-out is armed for it.
    pub open spec fn completed(self, success: bool) -> LevelSessionView {
        LevelSessionView {
            run: GameRunView {
                statuses: self.run.statuses.update(
                    self.run.index as int,
                    if success { LevelStatus::Completed } else { LevelStatus::Tried },
                ),
                ..self.run
            },
            state: LevelState::Complete,
            stats: LevelStats { success: Some(success), ..self.stats },
            lead_out: TimerView::armed(
                if success { LEAD_OUT_TIME_SUCCESS_NS as nat } else { LEAD_OUT_TIME_FAIL_NS as nat },
            ),
        }
    }
}

/// On entering `Complete` the lead-out lasts one second after a win and three after
/// a loss; over any ticks that follow, the summary becomes due on exactly one of
/// them once the lead-out has run out, and on none before.
pub proof fn lemma_lead_out_after_completion(
    session: LevelSessionView,
    success: bool,
    deltas: Seq<nat>,
)
    ensures
        session.completed(success).lead_out.duration == if success {
            1_000_000_000nat
        } else {
            3_000_000_000nat
        },
        session.completed(success).lead_out.finish_edges(deltas) <= 1,
        session.completed(success).lead_out.finish_edges(deltas) == 1 <==> deltas.len() > 0
            && total_time(deltas) >= session.completed(success).lead_out.duration,
{
    lemma_lead_out_finishes_once(session.completed(success).lead_out, deltas);
}

/// The gameplay session: the run's ledger and the lifecycle, stats and lead-out
/// timer of the level being played.
#[derive(Debug)]
pub struct LevelSession {
    run: GameRun,
    state: LevelState,
    stats: LevelStats,
    lead_out: LeadOutTimer,
}

impl View for LevelSession {
    type V = LevelSessionView;

    closed spec fn view(&self) -> LevelSessionView {
        LevelSessionView {
            run: self.run@,
            state: self.state,
            stats: self.stats,
            lead_out: self.lead_out@,
        }
    }
}

impl LevelSession {
    /// The ledger and the timer are well formed; a completed level has an outcome.
    pub closed spec fn wf(&self) -> bool {
        &&& self.run.wf()
        &&& self.lead_out.wf()
        &&& self.state == LevelState::Complete ==> self.stats.success is Some
    }

    /// A session over `run`, loading the level at its cursor.
    pub fn new(run: GameRun) -> (r: Self)
        requires
            run.wf(),
        ensures
            r.wf(),
            r@ == (LevelSessionView {
                run: run@,
                state: LevelState::Loading,
                stats: LevelStats { enemies_destroyed: 0, success: None, total_enemies: 0 },
                lead_out: TimerView::armed(0),
            }),
    {
        LevelSession {
            run,
            state: LevelState::Loading,
            stats: LevelStats::new(0),
            lead_out: LeadOutTimer::new(),
        }
    }

    /// (Re)starts the level at the cursor, whose enemies are `enemies`: the level
    /// is loading and its stats start afresh.
    pub fn spawn_level(&mut self, enemies: &Vec<EnemyDestruction>)
        requires
            old(self).wf(),
            enemies@.len() <= u32::MAX,
        ensures
            final(self).wf(),
            final(self)@ == (LevelSessionView {
                state: LevelState::Loading,
                stats: LevelStats {
                    enemies_destroyed: 0,
                    success: None,
                    total_enemies: count_required(enemies@) as u32,
                },
                ..old(self)@
            }),
    {
        let total = required_enemy_count(enemies);
        self.stats = LevelStats::new(total);
        self.state = LevelState::Loading;
    }

    /// The readiness check: a loading level is ready at once.
    pub fn check_load_status(&mut self)
        requires
            old(self).wf(),
        ensures
            final(self).wf(),
            final(self)@ == (LevelSessionView {
                state: if old(self)@.state == LevelState::Loading {
                    LevelState::Ready
                } else {
                    old(self)@.state
                },
                ..old(self)@
            }),
    {
        if self.state == LevelState::Loading {
            self.state = LevelState::Ready;
        }
    }

    /// Play begins on a ready level.
    pub fn start_playing(&mut self)
        requires
            old(self).wf(),
        ensures
            final(self).wf(),
            final(self)@ == (LevelSessionView {
                state: if old(self)@.state == LevelState::Ready {
                    LevelState::Playing
                } else {
                    old(self)@.state
                },
                ..old(self)@
            }),
    {
        if self.state == LevelState::Ready {
            self.state = LevelState::Playing;
        }
    }

    /// Counts one destroyed enemy.
    pub fn on_enemy_destroyed(&mut self)
        requires
            old(self).wf(),
            old(self)@.stats.enemies_destroyed < u32::MAX,
        ensures
            final(self).wf(),
            final(self)@ == (LevelSessionView {
                stats: LevelStats {
                    enemies_destroyed: (old(self)@.stats.enemies_destroyed + 1) as u32,
                    ..old(self)@.stats
                },
                ..old(self)@
            }),
    {
        self.stats.enemies_destroyed = self.stats.enemies_destroyed + 1;
    }

    /// The success detector, given the enemies still alive and the number of
    /// explosions still going on: while playing, the level is won once no required
    /// enemy is left and no explosion is active.
    pub fn check_level_complete(&mut self, enemies: &Vec<EnemyDestruction>, explosions: usize)
        requires
            old(self).wf(),
        ensures
            final(self).wf(),
            final(self)@ == if old(self)@.state == LevelState::Playing && count_required(enemies@)
                == 0 && explosions == 0 {
                old(self)@.completed(true)
            } else {
                old(self)@
            },
    {
        if self.state == LevelState::Playing && explosions == 0 && !any_required(enemies) {
            self.stats.success = Some(true);
            self.state = LevelState::Complete;
            self.on_level_complete();
        }
    }

    /// The failure detector: while playing, the loss of the player ends the level
    /// as failed, whatever is left of the enemies.
    pub fn on_player_destroyed(&mut self)
        requires
            old(self).wf(),
        ensures
            final(self).wf(),
            final(self)@ == if old(self)@.state == LevelState::Playing {
                old(self)@.completed(false)
            } else {
                old(self)@
            },
    {
        if self.state == LevelState::Playing {
            self.stats.success = Some(false);
            self.state = LevelState::Complete;
            self.on_level_complete();
        }
    }

    /// On entering `Complete`: records the outcome at the cursor and arms the
    /// lead-out for it.
    fn on_level_complete(&mut self)
        requires
            old(self).run.wf(),
            old(self).lead_out.wf(),
            old(self).state == LevelState::Complete,
            old(self).stats.success is Some,
        ensures
            final(self).wf(),
            final(self)@ == old(self)@.completed(old(self)@.stats.success.unwrap()),
    {
        if self.stats.success == Some(true) {
            self.run.set_current_level_status(LevelStatus::Completed);
            self.lead_out.arm(LEAD_OUT_TIME_SUCCESS_NS);
        } else {
            self.run.set_current_level_status(LevelStatus::Tried);
            self.lead_out.arm(LEAD_OUT_TIME_FAIL_NS);
        }
    }

    /// Lets `delta_ns` nanoseconds of lead-out pass on a completed level; returns
    /// whether the lead-out finished on this call, when the summary is due.
    pub fn update_lead_out_timer(&mut self, delta_ns: u64) -> (r: bool)
        requires
            old(self).wf(),
        ensures
            final(self).wf(),
            old(self)@.state == LevelState::Complete && !old(self)@.lead_out.finished ==> {
                &&& final(self)@ == (LevelSessionView {
                    lead_out: old(self)@.lead_out.ticked(delta_ns as nat),
                    ..old(self)@
                })
                &&& r == final(self)@.lead_out.just_finished
            },
            !(old(self)@.state == LevelState::Complete && !old(self)@.lead_out.finished) ==> {
                &&& final(self)@ == old(self)@
                &&& !r
            },
    {
        if self.state == LevelState::Complete && !self.lead_out.finished() {
            self.lead_out.tick(delta_ns);
            self.lead_out.just_finished()
        } else {
            false
        }
    }

    /// Moves the run's cursor to its next level; fails, changing nothing, at the last.
    pub fn advance_current_level(&mut self) -> (r: Result<(), GameRunError>)
        requires
            old(self).wf(),
        ensures
            final(self).wf(),
            r is Ok <==> old(self)@.run.has_more(),
            r is Err ==> r == Err::<(), GameRunError>(GameRunError::NoMoreLevels),
            final(self)@ == (LevelSessionView { run: old(self)@.run.advanced(), ..old(self)@ }),
    {
        self.run.advance_current_level()
    }

    pub fn run(&self) -> (r: &GameRun)
        requires
            self.wf(),
        ensures
            r.wf(),
            r@ == self@.run,
    {
        &self.run
    }

    pub fn state(&self) -> (r: LevelState)
        ensures
            r == self@.state,
    {
        self.state
    }

    pub fn stats(&self) -> (r: LevelStats)
        ensures
            r == self@.stats,
    {
        self.stats
    }

    pub fn lead_out(&self) -> (r: &LeadOutTimer)
        requires
            self.wf(),
        ensures
            r.wf(),
            r@ == self@.lead_out,
    {
        &self.lead_out
    }
}

} // verus!
