//! The phase scheduler.
//!
//! A scheduler owns a store and two ordered lists of steps. The start-up
//! steps run once, in their order, before anything else. After that each call
//! for an update runs the update steps once, in their order, and then
//! advances the frame clock by one. The scheduler never goes back to start-up
//! and never stops by itself; the host stops it by not calling again.
//!
//! The command buffer is flushed after every step, so a step sees the
//! entities that the steps before it asked for, and never a store that
//! changes shape under it.
//!
//! A step that fails with a configuration error ends its phase or iteration:
//! the steps after it are not run, the failure is logged, and the scheduler
//! carries on with the next call. A step that fails fatally halts the
//! scheduler: from then on it runs nothing.

use vstd::prelude::*;
use crate::clock::FrameClock;
use crate::commands::{
    apply_all, lemma_apply_all_keeps_resources, lemma_apply_all_wf, skipped, Command,
    CommandBuffer, Skipped,
};
use crate::components::{ComponentSet, Window};
use crate::error::{ConfigError, FatalError, ResourceKind, StepError};
use crate::log::LogEntry;
use crate::steps::{
    check_startup, check_startup_outcome, dump_state, make_visible, make_visible_outcome,
    startup_system, startup_system_outcome, state_dump, toggle_vsync, toggle_vsync_outcome,
    window_patch, Input, Step,
};
use crate::store::{player_rows, Resource, Store, StoreModel};

verus! {

/// The two phases of a run.
#[derive(Clone, Copy, Debug, PartialEq, Eq, Structural)]
pub enum Phase {
    /// The start-up steps have not run yet.
    Startup,
    /// The start-up steps have run; every call runs one update iteration.
    Update,
}

/// How a call of the scheduler ended.
#[derive(Clone, Copy, Debug, PartialEq, Eq)]
pub enum Outcome {
    /// Every step ran.
    Completed,
    /// The step at this place failed with a configuration error; the steps
    /// after it were not run.
    Aborted { step: usize, error: ConfigError },
    /// The scheduler is halted by this fatal error, raised in this call or in
    /// an earlier one.
    Halted(FatalError),
    /// Nothing ran, because the scheduler is in the other phase.
    NotDue,
}

/// What a call of the scheduler reports to the host.
#[derive(Debug)]
pub struct Report {
    /// The frame count that the steps of this call observed.
    pub frame: u64,
    /// How the call ended.
    pub outcome: Outcome,
    /// What the steps and the flushes logged, in order.
    pub log: Vec<LogEntry>,
}

/// What one step does to a store, before the flush that follows it.
pub struct StepEffect {
    /// The store as the step leaves it.
    pub store: StoreModel,
    /// The commands that the step enqueued.
    pub commands: Seq<Command>,
    /// What the step logged.
    pub log: Seq<LogEntry>,
    /// Why the step failed, if it did.
    pub error: Option<StepError>,
}

/// How far a list of steps got.
pub struct Progress {
    /// The store after the last step that ran, and its flush.
    pub store: StoreModel,
    /// What was logged, in order.
    pub log: Seq<LogEntry>,
    /// The place and the error of the step that failed, if one did.
    pub failure: Option<(usize, StepError)>,
}

/// The input of a tick on which nothing was pressed.
pub open spec fn no_input() -> Input {
    Input { toggle_pressed: false }
}

/// What `step` does to `store` on a tick with this input.
pub open spec fn step_effect(step: Step, store: StoreModel, input: Input) -> StepEffect {
    match step {
        Step::StartupSystem => match startup_system_outcome(store) {
            Ok((after, commands)) => StepEffect {
                store: after,
                commands,
                log: Seq::empty(),
                error: None,
            },
            Err(error) => StepEffect {
                store,
                commands: Seq::empty(),
                log: Seq::empty(),
                error: Some(StepError::Fatal(error)),
            },
        },
        Step::CheckStartup => match check_startup_outcome(store) {
            Ok(lines) => StepEffect { store, commands: Seq::empty(), log: lines, error: None },
            Err(error) => StepEffect {
                store,
                commands: Seq::empty(),
                log: Seq::empty(),
                error: Some(StepError::Config(error)),
            },
        },
        Step::DumpState => StepEffect {
            store,
            commands: Seq::empty(),
            log: state_dump(store.game_state, player_rows(store.entities)),
            error: None,
        },
        Step::MakeVisible => match make_visible_outcome(store) {
            Ok(after) => StepEffect {
                store: after,
                commands: Seq::empty(),
                log: Seq::empty(),
                error: None,
            },
            Err(error) => StepEffect {
                store,
                commands: Seq::empty(),
                log: Seq::empty(),
                error: Some(StepError::Config(error)),
            },
        },
        Step::ToggleVsync => match toggle_vsync_outcome(store, input) {
            Ok((after, mode)) => StepEffect {
                store: after,
                commands: Seq::empty(),
                log: match mode {
                    Some(mode) => seq![LogEntry::PresentModeChanged(mode)],
                    None => Seq::empty(),
                },
                error: None,
            },
            Err(error) => StepEffect {
                store,
                commands: Seq::empty(),
                log: Seq::empty(),
                error: Some(StepError::Config(error)),
            },
        },
    }
}

/// One log entry for each command that a flush passed over, in their order.
pub open spec fn skip_lines(passed_over: Seq<Skipped>) -> Seq<LogEntry> {
    Seq::new(passed_over.len(), |i: int| LogEntry::CommandSkipped(passed_over[i]))
}

/// The entry that records a configuration error of the step at place `step`;
/// a fatal error is reported by the outcome of the call and not logged.
pub open spec fn failure_lines(step: usize, error: Option<StepError>) -> Seq<LogEntry> {
    match error {
        Some(StepError::Config(error)) => seq![LogEntry::StepFailed { step, error }],
        _ => Seq::empty(),
    }
}

/// How far `steps` get on `store`: each step runs on the store that the one
/// before it left, its commands are flushed, and the first failure ends the
/// run.
pub open spec fn run_steps(store: StoreModel, steps: Seq<Step>, input: Input) -> Progress
    decreases steps.len(),
{
    if steps.len() == 0 {
        Progress { store, log: Seq::empty(), failure: None }
    } else {
        let before = run_steps(store, steps.drop_last(), input);
        if before.failure is Some {
            before
        } else {
            let place = (steps.len() - 1) as usize;
            let effect = step_effect(steps.last(), before.store, input);
            Progress {
                store: apply_all(effect.store, effect.commands),
                log: before.log + effect.log + skip_lines(skipped(effect.store, effect.commands))
                    + failure_lines(place, effect.error),
                failure: match effect.error {
                    Some(error) => Some((place, error)),
                    None => None,
                },
            }
        }
    }
}

/// The outcome that a call reports for this progress.
pub open spec fn outcome_of(progress: Progress) -> Outcome {
    match progress.failure {
        None => Outcome::Completed,
        Some((step, StepError::Config(error))) => Outcome::Aborted { step, error },
        Some((_, StepError::Fatal(error))) => Outcome::Halted(error),
    }
}

/// A step leaves a well-formed store well formed and does not touch the
/// frame clock, and neither does the flush that follows it.
pub proof fn lemma_step_keeps_clock(step: Step, store: StoreModel, input: Input)
    requires
        store.wf(),
    ensures
        step_effect(step, store, input).store.wf(),
        step_effect(step, store, input).store.frame_clock == store.frame_clock,
        apply_all(
            step_effect(step, store, input).store,
            step_effect(step, store, input).commands,
        ).wf(),
        apply_all(
            step_effect(step, store, input).store,
            step_effect(step, store, input).commands,
        ).frame_clock == store.frame_clock,
{
    let effect = step_effect(step, store, input);
    match store.single_window() {
        Ok((id, window)) => {
            store.lemma_changes_keep_wf(
                id,
                ComponentSet::spec_empty(),
                window_patch(window.shown_at(store.frame_clock->0@)),
            );
            store.lemma_changes_keep_wf(
                id,
                ComponentSet::spec_empty(),
                window_patch(window.with_flipped_mode()),
            );
        },
        Err(_) => {},
    }
    lemma_apply_all_wf(effect.store, effect.commands);
    lemma_apply_all_keeps_resources(effect.store, effect.commands);
}

/// A run of steps leaves a well-formed store well formed and does not touch
/// the frame clock.
pub proof fn lemma_run_keeps_clock(store: StoreModel, steps: Seq<Step>, input: Input)
    requires
        store.wf(),
    ensures
        run_steps(store, steps, input).store.wf(),
        run_steps(store, steps, input).store.frame_clock == store.frame_clock,
    decreases steps.len(),
{
    if steps.len() > 0 {
        lemma_run_keeps_clock(store, steps.drop_last(), input);
        let before = run_steps(store, steps.drop_last(), input);
        lemma_step_keeps_clock(steps.last(), before.store, input);
    }
}

/// Once a step has failed, the steps after it change nothing: the run is
/// what it was at the failure.
pub proof fn lemma_failure_ends_run(store: StoreModel, steps: Seq<Step>, ran: int, input: Input)
    requires
        0 <= ran <= steps.len(),
        run_steps(store, steps.take(ran), input).failure is Some,
    ensures
        run_steps(store, steps, input) == run_steps(store, steps.take(ran), input),
    decreases steps.len(),
{
    if ran == steps.len() {
        assert(steps.take(ran) =~= steps);
    } else {
        assert(steps.drop_last().take(ran) =~= steps.take(ran));
        lemma_failure_ends_run(store, steps.drop_last(), ran, input);
    }
}

/// Runs one step. The store and the buffer are changed as the step asks;
/// the result is what the step logged, or why it failed.
pub fn run_step(step: Step, store: &mut Store, commands: &mut CommandBuffer, input: Input) -> (done:
    Result<Vec<LogEntry>, StepError>)
    requires
        old(store)@.wf(),
    ensures
        final(store)@.wf(),
        final(store)@ == step_effect(step, old(store)@, input).store,
        final(commands)@ == old(commands)@ + step_effect(step, old(store)@, input).commands,
        match step_effect(step, old(store)@, input).error {
            None => done matches Ok(log) && log@ == step_effect(step, old(store)@, input).log,
            Some(error) => done matches Err(found) && found == error,
        },
{
    proof {
        assert(old(commands)@ + Seq::<Command>::empty() =~= old(commands)@);
    }
    match step {
        Step::StartupSystem => match startup_system(store, commands) {
            Ok(()) => Ok(Vec::new()),
            Err(error) => Err(StepError::Fatal(error)),
        },
        Step::CheckStartup => match check_startup(store) {
            Ok(lines) => Ok(lines),
            Err(error) => Err(StepError::Config(error)),
        },
        Step::DumpState => Ok(dump_state(store)),
        Step::MakeVisible => match make_visible(store) {
            Ok(()) => Ok(Vec::new()),
            Err(error) => Err(StepError::Config(error)),
        },
        Step::ToggleVsync => match toggle_vsync(store, input) {
            Ok(Some(mode)) => {
                let mut log: Vec<LogEntry> = Vec::new();
                log.push(LogEntry::PresentModeChanged(mode));
                Ok(log)
            },
            Ok(None) => Ok(Vec::new()),
            Err(error) => Err(StepError::Config(error)),
        },
    }
}

/// Appends one entry for each command that a flush passed over.
fn log_skipped(log: &mut Vec<LogEntry>, passed_over: &Vec<Skipped>)
    ensures
        final(log)@ == old(log)@ + skip_lines(passed_over@),
{
    let mut i: usize = 0;
    while i < passed_over.len()
        invariant
            i <= passed_over.len(),
            log@ == old(log)@ + skip_lines(passed_over@.take(i as int)),
        decreases passed_over.len() - i,
    {
        log.push(LogEntry::CommandSkipped(passed_over[i]));
        proof {
            assert(log@ =~= old(log)@ + skip_lines(passed_over@.take(i + 1)));
        }
        i = i + 1;
    }
    proof {
        assert(passed_over@.take(passed_over@.len() as int) =~= passed_over@);
    }
}

/// Runs `steps` in their order, flushing the buffer after each, until one
/// fails or all have run. Returns the log and, if a step failed, its place
/// and error.
pub fn run_phase(
    store: &mut Store,
    commands: &mut CommandBuffer,
    steps: &Vec<Step>,
    input: Input,
) -> (result: (Vec<LogEntry>, Option<(usize, StepError)>))
    requires
        old(store)@.wf(),
        old(commands)@.len() == 0,
    ensures
        final(store)@.wf(),
        final(commands)@.len() == 0,
        final(store)@ == run_steps(old(store)@, steps@, input).store,
        result.0@ == run_steps(old(store)@, steps@, input).log,
        result.1 == run_steps(old(store)@, steps@, input).failure,
{
    let mut log: Vec<LogEntry> = Vec::new();
    let mut i: usize = 0;
    while i < steps.len()
        invariant
            i <= steps.len(),
            store@.wf(),
            commands@.len() == 0,
            run_steps(old(store)@, steps@.take(i as int), input).failure is None,
            store@ == run_steps(old(store)@, steps@.take(i as int), input).store,
            log@ == run_steps(old(store)@, steps@.take(i as int), input).log,
        decreases steps.len() - i,
    {
        let ghost before = store@;
        let ghost effect = step_effect(steps@[i as int], before, input);
        proof {
            assert(steps@.take(i + 1).drop_last() =~= steps@.take(i as int));
            assert(Seq::<Command>::empty() + effect.commands =~= effect.commands);
            assert(commands@ =~= Seq::<Command>::empty());
        }
        let done = run_step(steps[i], store, commands, input);
        let passed_over = commands.flush(store);
        match done {
            Ok(mut lines) => {
                log.append(&mut lines);
                log_skipped(&mut log, &passed_over);
                proof {
                    assert(log@ =~= run_steps(old(store)@, steps@.take(i + 1), input).log);
                }
            },
            Err(error) => {
                log_skipped(&mut log, &passed_over);
                match error {
                    StepError::Config(error) => {
                        log.push(LogEntry::StepFailed { step: i, error });
                    },
                    StepError::Fatal(_) => {},
                }
                proof {
                    assert(log@ =~= run_steps(old(store)@, steps@.take(i + 1), input).log);
                    lemma_failure_ends_run(old(store)@, steps@, i + 1, input);
                }
                return (log, Some((i, error)));
            },
        }
        i = i + 1;
    }
    proof {
        assert(steps@.take(steps@.len() as int) =~= steps@);
    }
    (log, None)
}

/// What a scheduler is, as mathematics sees it.
pub struct SchedulerModel {
    /// The store that the steps work on.
    pub store: StoreModel,
    /// The steps of the start-up phase, in their order.
    pub startup_steps: Seq<Step>,
    /// The steps of one update iteration, in their order.
    pub update_steps: Seq<Step>,
    /// The phase that the scheduler is in.
    pub phase: Phase,
    /// The fatal error that halted the scheduler, if one did.
    pub halted: Option<FatalError>,
}

impl SchedulerModel {
    /// The store is well formed and has a frame clock.
    pub open spec fn wf(self) -> bool {
        &&& self.store.wf()
        &&& self.store.frame_clock is Some
    }

    /// Whether a call for `phase` runs anything: the scheduler is in that
    /// phase and not halted.
    pub open spec fn due(self, phase: Phase) -> bool {
        self.halted is None && self.phase == phase
    }

    /// The frame count that the next call observes.
    pub open spec fn frame(self) -> nat {
        self.store.frame_clock->0@
    }

    /// How far the start-up steps get.
    pub open spec fn startup_progress(self) -> Progress {
        run_steps(self.store, self.startup_steps, no_input())
    }

    /// How far the update steps get on a tick with this input.
    pub open spec fn update_progress(self, input: Input) -> Progress {
        run_steps(self.store, self.update_steps, input)
    }

    /// What a call that is not due reports: the halt, or that the phase is
    /// another.
    pub open spec fn refusal(self) -> Outcome {
        match self.halted {
            Some(error) => Outcome::Halted(error),
            None => Outcome::NotDue,
        }
    }

    /// The scheduler after a call for the start-up phase. If the call is due,
    /// the start-up steps run; a fatal failure halts the scheduler, anything
    /// else takes it to the update phase. If not, nothing changes.
    pub open spec fn after_startup(self) -> SchedulerModel {
        if self.due(Phase::Startup) {
            let progress = self.startup_progress();
            match progress.failure {
                Some((_, StepError::Fatal(error))) => SchedulerModel {
                    store: progress.store,
                    halted: Some(error),
                    ..self
                },
                _ => SchedulerModel { store: progress.store, phase: Phase::Update, ..self },
            }
        } else {
            self
        }
    }

    /// The scheduler after a call for an update with this input. If the call
    /// is due, the update steps run; a fatal failure halts the scheduler,
    /// anything else advances the frame clock by one. If not, nothing changes.
    pub open spec fn after_update(self, input: Input) -> SchedulerModel {
        if self.due(Phase::Update) {
            let progress = self.update_progress(input);
            match progress.failure {
                Some((_, StepError::Fatal(error))) => SchedulerModel {
                    store: progress.store,
                    halted: Some(error),
                    ..self
                },
                _ => SchedulerModel {
                    store: StoreModel {
                        frame_clock: Some(FrameClock::showing((self.frame() + 1) as u64)),
                        ..progress.store
                    },
                    ..self
                },
            }
        } else {
            self
        }
    }
}

/// A call never takes a scheduler back: one that has left the start-up phase
/// stays in the update phase, one that is halted stays halted by the same
/// error, and the steps of both phases stay as they were declared.
pub proof fn lemma_no_way_back(scheduler: SchedulerModel, input: Input)
    ensures
        scheduler.phase == Phase::Update ==> scheduler.after_startup() == scheduler
            && scheduler.after_update(input).phase == Phase::Update,
        scheduler.halted is Some ==> scheduler.after_startup() == scheduler
            && scheduler.after_update(input) == scheduler,
        scheduler.after_startup().startup_steps == scheduler.startup_steps,
        scheduler.after_startup().update_steps == scheduler.update_steps,
        scheduler.after_update(input).startup_steps == scheduler.startup_steps,
        scheduler.after_update(input).update_steps == scheduler.update_steps,
{
}

/// Whatever the steps are, an update iteration that runs advances the frame
/// clock by exactly one, unless it halts the scheduler, and then the clock
/// stays. A call that runs nothing leaves the clock alone, and so does the
/// start-up phase.
pub proof fn lemma_clock_step(scheduler: SchedulerModel, input: Input)
    requires
        scheduler.wf(),
        scheduler.frame() < u64::MAX,
    ensures
        scheduler.after_update(input).wf(),
        scheduler.after_startup().wf(),
        scheduler.after_startup().frame() == scheduler.frame(),
        scheduler.after_update(input).frame() == if scheduler.due(Phase::Update)
            && scheduler.after_update(input).halted is None {
            scheduler.frame() + 1
        } else {
            scheduler.frame()
        },
{
    lemma_run_keeps_clock(scheduler.store, scheduler.update_steps, input);
    lemma_run_keeps_clock(scheduler.store, scheduler.startup_steps, no_input());
    FrameClock::showing((scheduler.frame() + 1) as u64).lemma_showing();
}

/// The start-up steps of the game: open it, then dump what was opened.
pub open spec fn reference_startup_steps() -> Seq<Step> {
    seq![Step::StartupSystem, Step::CheckStartup]
}

/// The update steps of the game: the visibility gate, then the vsync toggle.
pub open spec fn reference_update_steps() -> Seq<Step> {
    seq![Step::MakeVisible, Step::ToggleVsync]
}

/// The store that the game starts with: one entity, which carries the window
/// as the process starts with it, and a frame clock that shows zero.
pub open spec fn reference_store() -> StoreModel {
    StoreModel::empty(0).spawn(
        ComponentSet { window: Some(Window::initial()), ..ComponentSet::spec_empty() },
    ).with_resource(Resource::FrameClock(FrameClock::showing(0)))
}

/// The scheduler of the game as the process starts with it: the game's
/// store and steps, in the start-up phase.
pub open spec fn reference_scheduler() -> SchedulerModel {
    SchedulerModel {
        store: reference_store(),
        startup_steps: reference_startup_steps(),
        update_steps: reference_update_steps(),
        phase: Phase::Startup,
        halted: None,
    }
}

/// The scheduler itself.
pub struct Scheduler {
    store: Store,
    commands: CommandBuffer,
    startup_steps: Vec<Step>,
    update_steps: Vec<Step>,
    phase: Phase,
    halted: Option<FatalError>,
}

impl View for Scheduler {
    type V = SchedulerModel;

    closed spec fn view(&self) -> SchedulerModel {
        SchedulerModel {
            store: self.store@,
            startup_steps: self.startup_steps@,
            update_steps: self.update_steps@,
            phase: self.phase,
            halted: self.halted,
        }
    }
}

impl Scheduler {
    /// What holds of every scheduler between calls: its model is well formed
    /// and its command buffer is empty.
    pub closed spec fn wf(&self) -> bool {
        &&& self@.wf()
        &&& self.commands@.len() == 0
    }

    /// What the well-formedness of a scheduler says of its model.
    pub proof fn lemma_wf(&self)
        requires
            self.wf(),
        ensures
            self@.wf(),
    {
    }

    /// A scheduler for `store` with these steps, in the start-up phase. A
    /// store that brings no frame clock gets one that shows zero.
    pub fn new(store: Store, startup_steps: Vec<Step>, update_steps: Vec<Step>) -> (scheduler:
        Scheduler)
        requires
            store@.wf(),
        ensures
            scheduler.wf(),
            scheduler@ == (SchedulerModel {
                store: if store@.frame_clock is Some {
                    store@
                } else {
                    store@.with_resource(Resource::FrameClock(FrameClock::showing(0)))
                },
                startup_steps: startup_steps@,
                update_steps: update_steps@,
                phase: Phase::Startup,
                halted: None,
            }),
            scheduler@.frame() == match store@.frame_clock {
                Some(clock) => clock@,
                None => 0,
            },
    {
        let mut store = store;
        let _ = store.resource_insert(Resource::FrameClock(FrameClock::new()));
        Scheduler {
            store,
            commands: CommandBuffer::new(),
            startup_steps,
            update_steps,
            phase: Phase::Startup,
            halted: None,
        }
    }

    /// The scheduler of the game, in the start-up phase: its store holds one
    /// hidden window with vsync off and a frame clock at zero; start-up opens
    /// the game and dumps it; an update applies the visibility gate and then
    /// the vsync toggle.
    pub fn reference() -> (scheduler: Scheduler)
        ensures
            scheduler.wf(),
            scheduler@ == reference_scheduler(),
            scheduler@.frame() == 0,
    {
        let mut store = Store::new();
        store.spawn(ComponentSet::of_window(Window::new()));
        let mut startup_steps: Vec<Step> = Vec::new();
        startup_steps.push(Step::StartupSystem);
        startup_steps.push(Step::CheckStartup);
        let mut update_steps: Vec<Step> = Vec::new();
        update_steps.push(Step::MakeVisible);
        update_steps.push(Step::ToggleVsync);
        proof {
            assert(startup_steps@ =~= reference_startup_steps());
            assert(update_steps@ =~= reference_update_steps());
        }
        Scheduler::new(store, startup_steps, update_steps)
    }

    /// The phase that the scheduler is in.
    pub fn phase(&self) -> (phase: Phase)
        ensures
            phase == self@.phase,
    {
        self.phase
    }

    /// The fatal error that halted the scheduler, if one did.
    pub fn halted(&self) -> (error: Option<FatalError>)
        ensures
            error == self@.halted,
    {
        self.halted
    }

    /// The store, for reading.
    pub fn store(&self) -> (store: &Store)
        ensures
            store@ == self@.store,
    {
        &self.store
    }

    /// The frame count that the next call observes.
    pub fn frame_count(&self) -> (count: u64)
        requires
            self.wf(),
        ensures
            count == self@.frame(),
    {
        match self.store.resource_get(ResourceKind::FrameClock) {
            Some(Resource::FrameClock(clock)) => clock.frame_count(),
            _ => vstd::pervasive::unreached(),
        }
    }

    /// Runs the start-up phase: every start-up step once, in order, each
    /// followed by a flush. Afterwards the scheduler is in the update phase,
    /// unless a step failed fatally, which halts it. A scheduler that is
    /// halted or has left the start-up phase runs nothing and says so.
    pub fn run_startup(&mut self) -> (report: Report)
        requires
            old(self).wf(),
        ensures
            final(self).wf(),
            final(self)@ == old(self)@.after_startup(),
            final(self)@.frame() == old(self)@.frame(),
            report.frame == old(self)@.frame(),
            report.outcome == if old(self)@.due(Phase::Startup) {
                outcome_of(old(self)@.startup_progress())
            } else {
                old(self)@.refusal()
            },
            report.log@ == if old(self)@.due(Phase::Startup) {
                old(self)@.startup_progress().log
            } else {
                Seq::<LogEntry>::empty()
            },
    {
        let frame = self.frame_count();
        match self.halted {
            Some(error) => {
                return Report { frame, outcome: Outcome::Halted(error), log: Vec::new() };
            },
            None => {},
        }
        if self.phase != Phase::Startup {
            return Report { frame, outcome: Outcome::NotDue, log: Vec::new() };
        }
        proof {
            lemma_run_keeps_clock(self.store@, self.startup_steps@, no_input());
        }
        let (log, failure) = run_phase(
            &mut self.store,
            &mut self.commands,
            &self.startup_steps,
            Input { toggle_pressed: false },
        );
        let outcome = match failure {
            None => {
                self.phase = Phase::Update;
                Outcome::Completed
            },
            Some((step, StepError::Config(error))) => {
                self.phase = Phase::Update;
                Outcome::Aborted { step, error }
            },
            Some((_, StepError::Fatal(error))) => {
                self.halted = Some(error);
                Outcome::Halted(error)
            },
        };
        Report { frame, outcome, log }
    }

    /// Runs one update iteration: every update step once, in order, each
    /// followed by a flush, and then one tick of the frame clock. A step that
    /// fails fatally halts the scheduler, and the clock stays. A scheduler
    /// that is halted or still in the start-up phase runs nothing and says so.
    pub fn run_update(&mut self, input: Input) -> (report: Report)
        requires
            old(self).wf(),
            old(self)@.frame() < u64::MAX,
        ensures
            final(self).wf(),
            final(self)@ == old(self)@.after_update(input),
            report.frame == old(self)@.frame(),
            report.outcome == if old(self)@.due(Phase::Update) {
                outcome_of(old(self)@.update_progress(input))
            } else {
                old(self)@.refusal()
            },
            report.log@ == if old(self)@.due(Phase::Update) {
                old(self)@.update_progress(input).log
            } else {
                Seq::<LogEntry>::empty()
            },
            old(self)@.due(Phase::Update) && !(report.outcome is Halted) ==> final(self)@.frame()
                == old(self)@.frame() + 1,
    {
        let frame = self.frame_count();
        match self.halted {
            Some(error) => {
                return Report { frame, outcome: Outcome::Halted(error), log: Vec::new() };
            },
            None => {},
        }
        if self.phase != Phase::Update {
            return Report { frame, outcome: Outcome::NotDue, log: Vec::new() };
        }
        proof {
            lemma_run_keeps_clock(self.store@, self.update_steps@, input);
        }
        let (log, failure) = run_phase(
            &mut self.store,
            &mut self.commands,
            &self.update_steps,
            input,
        );
        let outcome = match failure {
            None => Outcome::Completed,
            Some((step, StepError::Config(error))) => Outcome::Aborted { step, error },
            Some((_, StepError::Fatal(error))) => {
                self.halted = Some(error);
                return Report { frame, outcome: Outcome::Halted(error), log };
            },
        };
        match self.store.resource_get(ResourceKind::FrameClock) {
            Some(Resource::FrameClock(clock)) => {
                let mut clock = clock;
                clock.tick();
                let _ = self.store.resource_set(Resource::FrameClock(clock));
                proof {
                    clock.lemma_showing();
                }
            },
            _ => {},
        }
        Report { frame, outcome, log }
    }
}

} // verus!
