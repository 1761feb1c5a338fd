//! The benchmark's decisions, as a state machine.
//!
//! Each trial times the shell twice: once with an empty command, then with
//! the workload. The program around this module spawns the shell, measures
//! each run and hands the duration back; after [`TRIALS`] trials the machine
//! reports the two mean durations and their difference.

use crate::clock::DURATION_NS_BOUND;
use crate::script::{default_script, default_script_for};
use crate::switches::{
    first_switch, interpret, value_of_switch, Switches, SwitchesView,
};
use vstd::prelude::*;

verus! {

/// How many trials a benchmark runs.
pub const TRIALS: usize = 10;

/// What the program around the machine does next.
pub enum Action {
    /// Run `shell -c script`, wait for it, and record how long it took.
    Measure { shell: String, script: String },
    /// All trials are done: print the report.
    Finish(Report),
}

/// Mean durations over the trials, in nanoseconds.
#[derive(Clone, Copy, Debug, PartialEq, Eq)]
pub struct Report {
    /// Mean time of the shell with an empty command.
    pub empty_ns: i128,
    /// Mean time of the shell with the workload.
    pub workload_ns: i128,
    /// `workload_ns - empty_ns`; negative when start-up noise dominates.
    pub net_ns: i128,
}

/// A configuration may be benchmarked only when it names a shell.
pub open spec fn can_run(sw: SwitchesView) -> bool {
    sw.shell.len() > 0
}

/// What the shell runs in the timed workload: the literal command if one was
/// given, else the generated script if it was asked for, else nothing.
pub open spec fn workload_of(sw: SwitchesView) -> Seq<char> {
    if sw.cmd_switch {
        sw.command
    } else if sw.default {
        default_script(sw.shell)
    } else {
        Seq::empty()
    }
}

pub open spec fn sum(s: Seq<int>) -> int
    decreases s.len(),
{
    if s.len() == 0 {
        0
    } else {
        sum(s.drop_last()) + s.last()
    }
}

/// Integer division that rounds toward zero.
pub open spec fn div_toward_zero(a: int, d: int) -> int {
    if a >= 0 {
        a / d
    } else {
        -((-a) / d)
    }
}

/// The mean of a run's durations, by integer division by the trial count.
pub open spec fn mean(s: Seq<int>) -> int {
    div_toward_zero(sum(s), TRIALS as int)
}

/// The mathematical state of a [`Benchmark`].
pub ghost struct BenchmarkView {
    pub shell: Seq<char>,
    pub workload: Seq<char>,
    /// Durations of the runs with an empty command, in order.
    pub empty_runs: Seq<int>,
    /// Durations of the runs with the workload, in order.
    pub workload_runs: Seq<int>,
}

/// Whether every trial has been run.
pub open spec fn is_finished(v: BenchmarkView) -> bool {
    v.workload_runs.len() >= TRIALS
}

/// Whether the next run is the empty one of a trial.
pub open spec fn empty_run_next(v: BenchmarkView) -> bool {
    v.empty_runs.len() == v.workload_runs.len()
}

/// A benchmark in progress.
pub struct Benchmark {
    shell: String,
    workload: String,
    empty_runs: Ghost<Seq<int>>,
    workload_runs: Ghost<Seq<int>>,
    empty_count: usize,
    workload_count: usize,
    total_empty_ns: i128,
    total_workload_ns: i128,
}

pub open spec fn within_bound(s: Seq<int>) -> bool {
    forall|i: int| 0 <= i < s.len() ==> -DURATION_NS_BOUND <= #[trigger] s[i] <= DURATION_NS_BOUND
}

proof fn lemma_sum_bound(s: Seq<int>)
    requires
        within_bound(s),
    ensures
        -(s.len() * DURATION_NS_BOUND) <= sum(s) <= s.len() * DURATION_NS_BOUND,
    decreases s.len(),
{
    if s.len() > 0 {
        let t = s.drop_last();
        assert(within_bound(t));
        lemma_sum_bound(t);
        assert(s.len() * DURATION_NS_BOUND == t.len() * DURATION_NS_BOUND + DURATION_NS_BOUND)
            by (nonlinear_arith)
            requires
                s.len() == t.len() + 1,
        ;
    } else {
        assert(0 * DURATION_NS_BOUND == 0);
    }
}

proof fn lemma_sum_push(s: Seq<int>, x: int)
    ensures
        sum(s.push(x)) == sum(s) + x,
{
    assert(s.push(x).drop_last() =~= s);
}

impl View for Benchmark {
    type V = BenchmarkView;

    closed spec fn view(&self) -> BenchmarkView {
        BenchmarkView {
            shell: self.shell@,
            workload: self.workload@,
            empty_runs: self.empty_runs@,
            workload_runs: self.workload_runs@,
        }
    }
}

impl Benchmark {
    /// The run lists fit the trial order and the totals are their sums.
    pub closed spec fn wf(&self) -> bool {
        &&& self.workload_runs@.len() <= self.empty_runs@.len()
        &&& self.empty_runs@.len() <= self.workload_runs@.len() + 1
        &&& self.empty_runs@.len() <= TRIALS
        &&& self.empty_count == self.empty_runs@.len()
        &&& self.workload_count == self.workload_runs@.len()
        &&& within_bound(self.empty_runs@)
        &&& within_bound(self.workload_runs@)
        &&& self.total_empty_ns == sum(self.empty_runs@)
        &&& self.total_workload_ns == sum(self.workload_runs@)
    }

    /// Sets up a benchmark of the configuration, or refuses one that names
    /// no shell.
    pub fn new(switches: &Switches) -> (r: Option<Benchmark>)
        ensures
            r is Some <==> can_run(switches@),
            r matches Some(b) ==> b.wf(),
            r matches Some(b) ==> b@ == (BenchmarkView {
                shell: switches.shell@,
                workload: workload_of(switches@),
                empty_runs: Seq::empty(),
                workload_runs: Seq::empty(),
            }),
    {
        if switches.shell.as_str().is_empty() {
            return None;
        }
        let workload = if switches.cmd_switch {
            switches.command.clone()
        } else if switches.default {
            default_script_for(&switches.shell)
        } else {
            String::new()
        };
        Some(
            Benchmark {
                shell: switches.shell.clone(),
                workload,
                empty_runs: Ghost(Seq::empty()),
                workload_runs: Ghost(Seq::empty()),
                empty_count: 0,
                workload_count: 0,
                total_empty_ns: 0,
                total_workload_ns: 0,
            },
        )
    }

    /// The next step: the run to measure, or the report once every trial
    /// is done.
    pub fn next_action(&self) -> (a: Action)
        requires
            self.wf(),
        ensures
            match a {
                Action::Measure { shell, script } => {
                    &&& !is_finished(self@)
                    &&& shell@ == self@.shell
                    &&& script@ == if empty_run_next(self@) {
                        Seq::<char>::empty()
                    } else {
                        self@.workload
                    }
                },
                Action::Finish(report) => {
                    &&& is_finished(self@)
                    &&& report.empty_ns == mean(self@.empty_runs)
                    &&& report.workload_ns == mean(self@.workload_runs)
                    &&& report.net_ns == mean(self@.workload_runs) - mean(self@.empty_runs)
                },
            },
    {
        if self.workload_count >= TRIALS {
            Action::Finish(self.report())
        } else if self.empty_count == self.workload_count {
            Action::Measure { shell: self.shell.clone(), script: String::new() }
        } else {
            Action::Measure { shell: self.shell.clone(), script: self.workload.clone() }
        }
    }

    /// Records the duration of the run that [`Benchmark::next_action`] asked
    /// for: the empty run or the workload run of the current trial.
    pub fn record(&mut self, elapsed_ns: i128)
        requires
            old(self).wf(),
            !is_finished(old(self)@),
            -DURATION_NS_BOUND <= elapsed_ns <= DURATION_NS_BOUND,
        ensures
            final(self).wf(),
            final(self)@.shell == old(self)@.shell,
            final(self)@.workload == old(self)@.workload,
            empty_run_next(old(self)@) ==> final(self)@.empty_runs == old(self)@.empty_runs.push(
                elapsed_ns as int,
            ) && final(self)@.workload_runs == old(self)@.workload_runs,
            !empty_run_next(old(self)@) ==> final(self)@.workload_runs
                == old(self)@.workload_runs.push(elapsed_ns as int) && final(self)@.empty_runs
                == old(self)@.empty_runs,
    {
        proof {
            lemma_sum_bound(self.empty_runs@);
            lemma_sum_bound(self.workload_runs@);
            lemma_sum_push(self.empty_runs@, elapsed_ns as int);
            lemma_sum_push(self.workload_runs@, elapsed_ns as int);
        }
        if self.empty_count == self.workload_count {
            self.total_empty_ns = self.total_empty_ns + elapsed_ns;
            self.empty_count = self.empty_count + 1;
            self.empty_runs = Ghost(self.empty_runs@.push(elapsed_ns as int));
        } else {
            self.total_workload_ns = self.total_workload_ns + elapsed_ns;
            self.workload_count = self.workload_count + 1;
            self.workload_runs = Ghost(self.workload_runs@.push(elapsed_ns as int));
        }
    }

    /// The mean durations over the runs recorded so far, each sum divided by
    /// [`TRIALS`].
    fn report(&self) -> (r: Report)
        requires
            self.wf(),
        ensures
            r.empty_ns == mean(self@.empty_runs),
            r.workload_ns == mean(self@.workload_runs),
            r.net_ns == mean(self@.workload_runs) - mean(self@.empty_runs),
    {
        proof {
            lemma_sum_bound(self.empty_runs@);
            lemma_sum_bound(self.workload_runs@);
        }
        let empty_ns = mean_of(self.total_empty_ns);
        let workload_ns = mean_of(self.total_workload_ns);
        Report { empty_ns, workload_ns, net_ns: workload_ns - empty_ns }
    }
}

/// With no `-s` switch the shell is empty, so no benchmark is set up and
/// nothing is spawned.
pub proof fn lemma_no_shell_switch_no_run(args: Seq<Seq<char>>)
    requires
        first_switch(args, 's') is None,
    ensures
        value_of_switch(args, 's') == Some(Seq::<char>::empty()),
        interpret(args) is Ok ==> !can_run(interpret(args)->Ok_0),
{
}

/// A literal command is what the workload runs, whether or not the
/// generated script was asked for too.
pub proof fn lemma_command_wins(sw: SwitchesView)
    requires
        sw.cmd_switch,
    ensures
        workload_of(sw) == sw.command,
{
}

/// A total of [`TRIALS`] durations divided by [`TRIALS`], rounded toward zero.
fn mean_of(total: i128) -> (r: i128)
    requires
        -(TRIALS * DURATION_NS_BOUND) <= total <= TRIALS * DURATION_NS_BOUND,
    ensures
        r == div_toward_zero(total as int, TRIALS as int),
        -DURATION_NS_BOUND <= r <= DURATION_NS_BOUND,
{
    if total >= 0 {
        total / (TRIALS as i128)
    } else {
        -((-total) / (TRIALS as i128))
    }
}

} // verus!
