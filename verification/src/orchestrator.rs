//! The host's side of a test run: a state machine that sequences a write
//! sweep and a read sweep over all windows and collects what each window's
//! read pass reported.

use vstd::prelude::*;
use crate::control::{
    iteration_param, seed_after, with_window_term, ControlView, IOBuffer, PassStatus,
};
use crate::params::ELEMENT_SIZE;
use crate::window::{PlanView, Window, WindowPlan};

verus! {

/// Where a run stands.
#[derive(Clone, Copy, Debug, PartialEq, Eq, Structural)]
pub enum Phase {
    /// Nothing has been written or dispatched yet.
    Init,
    /// A write dispatch is in flight.
    WriteSweep,
    /// All windows are written; the control structure is being switched to
    /// read mode.
    SwitchToRead,
    /// A read dispatch is in flight.
    ReadSweep,
    /// All windows are read; no device work follows.
    Report,
}

/// An inclusive range of byte addresses.
#[derive(Clone, Copy, Debug, PartialEq, Eq, Structural)]
pub struct AddressRange {
    pub first: u64,
    pub last: u64,
}

/// What the caller does next.
#[derive(Clone, Copy)]
pub enum Action {
    /// Store `control` in the mapped control structure, run the kernel over
    /// `window`, wait for it, and hand back the mapped structure and the time
    /// the dispatch took.
    Dispatch { control: IOBuffer, window: Window },
    /// Store `control` in the mapped control structure; no device work.
    Store { control: IOBuffer },
    /// The run is over.
    Finish,
}

/// An action as a mathematical value.
pub enum ActionView {
    Dispatch { control: ControlView, window: Window },
    Store { control: ControlView },
    Finish,
}

impl View for Action {
    type V = ActionView;

    open spec fn view(&self) -> ActionView {
        match *self {
            Action::Dispatch { control, window } => ActionView::Dispatch {
                control: control@,
                window,
            },
            Action::Store { control } => ActionView::Store { control: control@ },
            Action::Finish => ActionView::Finish,
        }
    }
}

/// What the read pass over one window left in the control structure.
#[derive(Clone, Copy)]
pub struct WindowReport {
    /// The window that was read.
    pub window: Window,
    /// How long the read dispatch took.
    pub elapsed_nanos: u64,
    /// The control structure as the device left it.
    pub control: IOBuffer,
}

/// A report as a mathematical value.
pub struct ReportView {
    pub window: Window,
    pub elapsed_nanos: u64,
    pub control: ControlView,
}

impl ReportView {
    /// The three-way outcome of the window.
    pub open spec fn status(self) -> PassStatus {
        self.control.pass_status()
    }

    /// The faulty byte addresses of a window that is not confirmed clean, from
    /// the first byte of its lowest bad element to the last byte of its
    /// highest; none for a clean window, and none where the structure names
    /// elements whose addresses leave 64 bits.
    pub open spec fn error_addresses(self) -> Option<AddressRange> {
        if self.status() != PassStatus::Clean && self.control.addresses_fit(self.window.offset) {
            Some(
                AddressRange {
                    first: self.control.first_bad_address(self.window.offset) as u64,
                    last: self.control.last_bad_address(self.window.offset) as u64,
                },
            )
        } else {
            None
        }
    }
}

impl View for WindowReport {
    type V = ReportView;

    open spec fn view(&self) -> ReportView {
        ReportView {
            window: self.window,
            elapsed_nanos: self.elapsed_nanos,
            control: self.control@,
        }
    }
}

impl WindowReport {
    /// The three-way outcome of the window: confirmed clean, faulty, or
    /// unconfirmed.
    pub fn status(&self) -> (status: PassStatus)
        ensures
            status == self@.status(),
    {
        self.control.pass_status()
    }

    /// The range of faulty byte addresses that the window reports, if any.
    pub fn error_addresses(&self) -> (range: Option<AddressRange>)
        ensures
            range == self@.error_addresses(),
    {
        if self.control.done_iter_or_status != self.control.iteration
            && self.control.error_addresses_fit(self.window.offset) {
            Some(
                AddressRange {
                    first: self.window.offset + self.control.min_bad_idx as u64 * ELEMENT_SIZE,
                    last: self.window.offset + self.control.max_bad_idx as u64 * ELEMENT_SIZE + (
                    ELEMENT_SIZE - 1),
                },
            )
        } else {
            None
        }
    }
}

/// The iteration id of a run's only iteration.
pub open spec fn run_iteration() -> u32 {
    1
}

/// The seed with which the dispatches over window `index` run, in the write
/// sweep and in the read sweep alike.
pub open spec fn window_seed(index: nat) -> u32 {
    seed_after(iteration_param(run_iteration()), index + 1)
}

/// The control structure that the host stores before the write dispatch over
/// window `index`.
pub open spec fn write_control(index: nat) -> ControlView {
    ControlView {
        value_calc_param: window_seed(index),
        ..ControlView::for_write_sweep(run_iteration())
    }
}

/// The control structure that the host stores when all windows are written:
/// read mode, with the seed back at the iteration's base.
pub open spec fn switch_control() -> ControlView {
    ControlView { write_do: 0, read_do: 1, ..ControlView::for_write_sweep(run_iteration()) }
}

/// The control structure that the host stores before the read dispatch over
/// window `index`: read mode, error aggregates and status reset, and the
/// seed that the window was written with.
pub open spec fn read_control(index: nat) -> ControlView {
    ControlView { value_calc_param: window_seed(index), ..switch_control() }
}

/// A run as a mathematical value.
pub struct RunView {
    pub plan: PlanView,
    pub phase: Phase,
    /// During a sweep, the index of the window whose dispatch is in flight.
    pub window: nat,
    /// Durations of the write dispatches that have completed, in window order.
    pub write_nanos: Seq<u64>,
    /// Reports of the read dispatches that have completed, in window order.
    pub reports: Seq<ReportView>,
}

impl RunView {
    /// The state is one that a run can be in.
    pub open spec fn wf(self) -> bool {
        &&& self.plan.window_count > 0
        &&& match self.phase {
            Phase::Init => self.window == 0 && self.write_nanos.len() == 0 && self.reports.len()
                == 0,
            Phase::WriteSweep => self.window < self.plan.window_count && self.write_nanos.len()
                == self.window && self.reports.len() == 0,
            Phase::SwitchToRead => self.window == 0 && self.write_nanos.len()
                == self.plan.window_count && self.reports.len() == 0,
            Phase::ReadSweep => self.window < self.plan.window_count && self.write_nanos.len()
                == self.plan.window_count && self.reports.len() == self.window,
            Phase::Report => self.window == 0 && self.write_nanos.len() == self.plan.window_count
                && self.reports.len() == self.plan.window_count,
        }
        &&& forall|i: int|
            0 <= i < self.reports.len() ==> (#[trigger] self.reports[i]).window == self.plan.window(
                i as nat,
            )
    }

    /// Number of steps after which the run is over.
    pub open spec fn steps_left(self) -> nat {
        let count = self.plan.window_count;
        match self.phase {
            Phase::Init => 2 * count + 2,
            Phase::WriteSweep => (2 * count + 1 - self.window) as nat,
            Phase::SwitchToRead => count + 1,
            Phase::ReadSweep => (count - self.window) as nat,
            Phase::Report => 0,
        }
    }

    /// The state after one step, and the action that the step asks for, when
    /// the last action left `mapped` in the control structure and took
    /// `elapsed_nanos`.
    pub open spec fn next(self, mapped: ControlView, elapsed_nanos: u64) -> (RunView, ActionView) {
        let count = self.plan.window_count;
        match self.phase {
            Phase::Init => (
                RunView { phase: Phase::WriteSweep, window: 0, ..self },
                ActionView::Dispatch { control: write_control(0), window: self.plan.window(0) },
            ),
            Phase::WriteSweep => {
                let write_nanos = self.write_nanos.push(elapsed_nanos);
                if self.window + 1 < count {
                    (
                        RunView { window: self.window + 1, write_nanos, ..self },
                        ActionView::Dispatch {
                            control: write_control(self.window + 1),
                            window: self.plan.window(self.window + 1),
                        },
                    )
                } else {
                    (
                        RunView { phase: Phase::SwitchToRead, window: 0, write_nanos, ..self },
                        ActionView::Store { control: switch_control() },
                    )
                }
            },
            Phase::SwitchToRead => (
                RunView { phase: Phase::ReadSweep, window: 0, ..self },
                ActionView::Dispatch { control: read_control(0), window: self.plan.window(0) },
            ),
            Phase::ReadSweep => {
                let reports = self.reports.push(
                    ReportView {
                        window: self.plan.window(self.window),
                        elapsed_nanos,
                        control: mapped,
                    },
                );
                if self.window + 1 < count {
                    (
                        RunView { window: self.window + 1, reports, ..self },
                        ActionView::Dispatch {
                            control: read_control(self.window + 1),
                            window: self.plan.window(self.window + 1),
                        },
                    )
                } else {
                    (
                        RunView { phase: Phase::Report, window: 0, reports, ..self },
                        ActionView::Finish,
                    )
                }
            },
            Phase::Report => (self, ActionView::Finish),
        }
    }
}

/// Number of reports in `reports` whose outcome is `status`.
pub open spec fn count_status(reports: Seq<ReportView>, status: PassStatus) -> nat
    decreases reports.len(),
{
    if reports.len() == 0 {
        0
    } else {
        count_status(reports.drop_last(), status) + if reports.last().status() == status {
            1nat
        } else {
            0nat
        }
    }
}

/// The host's state machine for one run over a plan.
pub struct Orchestrator {
    plan: WindowPlan,
    phase: Phase,
    window: u64,
    control: IOBuffer,
    write_nanos: Vec<u64>,
    reports: Vec<WindowReport>,
}

impl View for Orchestrator {
    type V = RunView;

    closed spec fn view(&self) -> RunView {
        RunView {
            plan: self.plan@,
            phase: self.phase,
            window: self.window as nat,
            write_nanos: self.write_nanos@,
            reports: self.reports@.map_values(|r: WindowReport| r@),
        }
    }
}

impl Orchestrator {
    /// The run is in a state that `new` and `step` can lead to: its view is
    /// well formed, and during a sweep the host holds the control structure
    /// that it stored for the window in flight.
    pub closed spec fn inv(&self) -> bool {
        &&& self.plan.wf()
        &&& self@.wf()
        &&& match self.phase {
            Phase::Init => true,
            Phase::WriteSweep => self.control@ == write_control(self.window as nat),
            Phase::SwitchToRead => self.control@ == switch_control(),
            Phase::ReadSweep => self.control@ == read_control(self.window as nat),
            Phase::Report => true,
        }
    }

    /// A run over `plan` that has not begun.
    pub fn new(plan: WindowPlan) -> (run: Orchestrator)
        ensures
            run.inv(),
            run@ == (RunView {
                plan: plan@,
                phase: Phase::Init,
                window: 0,
                write_nanos: Seq::empty(),
                reports: Seq::empty(),
            }),
    {
        proof {
            use_type_invariant(&plan);
        }
        let run = Orchestrator {
            plan,
            phase: Phase::Init,
            window: 0,
            control: IOBuffer::default(),
            write_nanos: Vec::new(),
            reports: Vec::new(),
        };
        assert(run@.reports =~= Seq::empty());
        run
    }

    /// Takes one step: given what the last action left in the mapped control
    /// structure and how long it took, moves to the next state and says what
    /// to do next. What the device reported never changes the sequence of
    /// windows; it only goes into the reports.
    pub fn step(&mut self, mapped: &IOBuffer, elapsed_nanos: u64) -> (action: Action)
        requires
            old(self).inv(),
        ensures
            final(self).inv(),
            (final(self)@, action@) == old(self)@.next(mapped@, elapsed_nanos),
    {
        let ghost before = self@;
        let count: u64 = self.plan.window_count();
        match self.phase {
            Phase::Init => {
                self.control = IOBuffer::default();
                self.control.prepare_next_iter_write();
                self.control.add_window_term(0);
                self.phase = Phase::WriteSweep;
                self.window = 0;
                proof {
                    lemma_seed_unfold(iteration_param(run_iteration()), 1);
                    assert(self@.reports =~= before.reports);
                }
                Action::Dispatch { control: self.control, window: self.plan.window_within(0) }
            },
            Phase::WriteSweep => {
                self.write_nanos.push(elapsed_nanos);
                if self.window + 1 < count {
                    self.window = self.window + 1;
                    self.control.add_window_term(self.window);
                    proof {
                        lemma_seed_unfold(
                            iteration_param(run_iteration()),
                            (self.window + 1) as nat,
                        );
                        assert(self@.reports =~= before.reports);
                    }
                    Action::Dispatch { control: self.control, window: self.plan.window_within(self.window) }
                } else {
                    self.control.continue_iter_read(1);
                    self.phase = Phase::SwitchToRead;
                    self.window = 0;
                    proof {
                        assert(self@.reports =~= before.reports);
                    }
                    Action::Store { control: self.control }
                }
            },
            Phase::SwitchToRead => {
                self.control.reset_errors();
                self.control.add_window_term(0);
                self.phase = Phase::ReadSweep;
                self.window = 0;
                proof {
                    lemma_seed_unfold(iteration_param(run_iteration()), 1);
                    assert(self@.reports =~= before.reports);
                }
                Action::Dispatch { control: self.control, window: self.plan.window_within(0) }
            },
            Phase::ReadSweep => {
                let report = WindowReport {
                    window: self.plan.window_within(self.window),
                    elapsed_nanos,
                    control: *mapped,
                };
                self.reports.push(report);
                proof {
                    assert(self@.reports =~= before.reports.push(report@));
                }
                if self.window + 1 < count {
                    self.window = self.window + 1;
                    self.control.reset_errors();
                    self.control.add_window_term(self.window);
                    proof {
                        lemma_seed_unfold(
                            iteration_param(run_iteration()),
                            (self.window + 1) as nat,
                        );
                        lemma_seed_unfold(iteration_param(run_iteration()), self.window as nat);
                    }
                    Action::Dispatch { control: self.control, window: self.plan.window_within(self.window) }
                } else {
                    self.phase = Phase::Report;
                    self.window = 0;
                    Action::Finish
                }
            },
            Phase::Report => Action::Finish,
        }
    }

    /// Where the run stands.
    pub fn phase(&self) -> (phase: Phase)
        ensures
            phase == self@.phase,
    {
        self.phase
    }

    /// Whether the run is over.
    pub fn is_finished(&self) -> (finished: bool)
        ensures
            finished == (self@.phase == Phase::Report),
    {
        match self.phase {
            Phase::Report => true,
            _ => false,
        }
    }

    /// The plan that the run follows.
    pub fn plan(&self) -> (plan: &WindowPlan)
        ensures
            plan@ == self@.plan,
    {
        &self.plan
    }

    /// Durations of the completed write dispatches, in window order.
    pub fn write_times(&self) -> (times: &Vec<u64>)
        ensures
            times@ == self@.write_nanos,
    {
        &self.write_nanos
    }

    /// Reports of the completed read dispatches, in window order.
    pub fn reports(&self) -> (reports: &Vec<WindowReport>)
        ensures
            reports@.map_values(|r: WindowReport| r@) == self@.reports,
    {
        &self.reports
    }

    /// Counts the windows read so far whose outcome is `status`.
    pub fn count_with_status(&self, status: PassStatus) -> (count: usize)
        ensures
            count == count_status(self@.reports, status),
    {
        let mut count: usize = 0;
        let mut i: usize = 0;
        let ghost views = self@.reports;
        while i < self.reports.len()
            invariant
                i <= self.reports.len(),
                views == self.reports@.map_values(|r: WindowReport| r@),
                count == count_status(views.take(i as int), status),
                count <= i,
            decreases self.reports.len() - i,
        {
            proof {
                assert(views.take(i + 1).drop_last() =~= views.take(i as int));
                assert(views.take(i + 1).last() == self.reports@[i as int]@);
            }
            if self.reports[i].status() == status {
                count = count + 1;
            }
            i = i + 1;
        }
        proof {
            assert(views.take(i as int) =~= views);
        }
        count
    }
}

/// The seed after `windows` windows, for `windows > 0`, is the seed after
/// one window fewer with the term of the last window added.
proof fn lemma_seed_unfold(base: u32, windows: nat)
    requires
        windows > 0,
    ensures
        seed_after(base, windows) == with_window_term(
            seed_after(base, (windows - 1) as nat),
            (windows - 1) as u64,
        ),
{
}

/// Every step but the last brings a run one step nearer to its end, and a
/// run is told to finish exactly when it has arrived there: from the start,
/// a run over `n` windows takes `2 n + 2` steps, whatever the device reports.
pub proof fn lemma_step_progress(run: RunView, mapped: ControlView, elapsed_nanos: u64)
    requires
        run.wf(),
    ensures
        ({
            let (after, action) = run.next(mapped, elapsed_nanos);
            &&& after.wf()
            &&& after.plan == run.plan
            &&& run.phase != Phase::Report ==> after.steps_left() + 1 == run.steps_left()
            &&& run.phase == Phase::Report ==> after == run
            &&& action is Finish <==> after.phase == Phase::Report
            &&& after.steps_left() == 0 <==> after.phase == Phase::Report
        }),
{
    let (after, action) = run.next(mapped, elapsed_nanos);
    assert forall|i: int| 0 <= i < after.reports.len() implies (#[trigger] after.reports[i]).window
        == after.plan.window(i as nat) by {
        if i < run.reports.len() {
            assert(after.reports[i] == run.reports[i]);
        }
    }
}

/// Faults never abort a run: what the device left in the control structure,
/// and how long it took, changes neither the next phase, nor the next
/// window, nor the action; it is only recorded.
pub proof fn lemma_faults_never_abort(
    run: RunView,
    mapped: ControlView,
    elapsed_nanos: u64,
    other_mapped: ControlView,
    other_elapsed_nanos: u64,
)
    ensures
        run.next(mapped, elapsed_nanos).1 == run.next(other_mapped, other_elapsed_nanos).1,
        run.next(mapped, elapsed_nanos).0.phase == run.next(
            other_mapped,
            other_elapsed_nanos,
        ).0.phase,
        run.next(mapped, elapsed_nanos).0.window == run.next(
            other_mapped,
            other_elapsed_nanos,
        ).0.window,
{
}

/// A step of the read sweep records the window in flight with exactly what
/// the device left in the control structure, after the reports of the
/// windows before it.
pub proof fn lemma_read_step_reports(run: RunView, mapped: ControlView, elapsed_nanos: u64)
    requires
        run.wf(),
        run.phase == Phase::ReadSweep,
    ensures
        run.next(mapped, elapsed_nanos).0.reports == run.reports.push(
            ReportView { window: run.plan.window(run.window), elapsed_nanos, control: mapped },
        ),
{
}

/// Each window is read with the seed it was written with, and both sweeps
/// belong to the same iteration.
pub proof fn lemma_sweeps_agree(index: nat)
    ensures
        read_control(index).value_calc_param == write_control(index).value_calc_param,
        read_control(index).iteration == write_control(index).iteration,
        write_control(index).write_do != 0 && write_control(index).read_do == 0,
        read_control(index).read_do != 0 && read_control(index).write_do == 0,
        read_control(index) == read_control(index).with_errors_reset(),
{
}

/// What a run reports of a window that holds what its write dispatch stored:
/// no error, and the pass confirmed clean exactly where the window holds the
/// confirmation index of its seed; a shorter window stays unconfirmed.
pub proof fn lemma_sound_window_report(index: nat, mem: Seq<u32>)
    requires
        mem.len() <= 0x1_0000_0000,
    ensures
        ({
            let stored = crate::kernel::dispatch(write_control(index), mem).1;
            let after = crate::kernel::dispatch(read_control(index), stored).0;
            &&& after.errors_clear()
            &&& after.pass_status() == if crate::pattern::confirmation_index(window_seed(index))
                < mem.len() {
                PassStatus::Clean
            } else {
                PassStatus::Unconfirmed
            }
        }),
{
    if crate::pattern::confirmation_index(window_seed(index)) < mem.len() {
        crate::kernel::lemma_clean_round_trip(write_control(index), read_control(index), mem);
    } else {
        crate::kernel::lemma_short_window_unconfirmed(
            write_control(index),
            read_control(index),
            mem,
        );
    }
}

} // verus!
