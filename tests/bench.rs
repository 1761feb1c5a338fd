use shellspeed::bench::{Action, Benchmark, Report, TRIALS};
use shellspeed::clock::{Stopwatch, DURATION_NS_BOUND};
use shellspeed::script::default_script_for;
use shellspeed::switches::{SwitchError, Switches};

fn switches(list: &[&str]) -> Switches {
    let args: Vec<String> = list.iter().map(|s| s.to_string()).collect();
    Switches::new(&args).ok().unwrap()
}

/// Runs the machine to the end, handing it `empty` for every empty run and
/// `work` for every workload run; returns the runs it asked for and the report.
fn drive(bench: &mut Benchmark, empty: &[i128], work: &[i128]) -> (Vec<(String, String)>, Report) {
    let mut runs = Vec::new();
    let (mut e, mut w) = (0usize, 0usize);
    loop {
        match bench.next_action() {
            Action::Measure { shell, script } => {
                let is_empty = runs.len() % 2 == 0;
                runs.push((shell, script));
                if is_empty {
                    bench.record(empty[e]);
                    e += 1;
                } else {
                    bench.record(work[w]);
                    w += 1;
                }
            }
            Action::Finish(report) => return (runs, report),
        }
    }
}

#[test]
fn command_takes_precedence_over_default_script() {
    let sw = Switches {
        shell: "bash".to_string(),
        cmd_switch: true,
        command: "ls".to_string(),
        default: true,
    };
    let mut bench = Benchmark::new(&sw).unwrap();
    let (runs, _) = drive(&mut bench, &[1; 10], &[2; 10]);
    assert_eq!(runs[1], ("bash".to_string(), "ls".to_string()));
}

#[test]
fn default_script_used_without_command() {
    let mut bench = Benchmark::new(&switches(&["-s", "ion", "-d"])).unwrap();
    let (runs, _) = drive(&mut bench, &[1; 10], &[2; 10]);
    assert_eq!(runs[1].1, default_script_for(&"ion".to_string()));
}

#[test]
fn neither_command_nor_script_runs_empty_workload() {
    let mut bench = Benchmark::new(&switches(&["-s", "bash"])).unwrap();
    let (runs, _) = drive(&mut bench, &[1; 10], &[2; 10]);
    assert!(runs.iter().all(|(shell, script)| shell == "bash" && script.is_empty()));
}

#[test]
fn trials_alternate_empty_and_workload_runs() {
    let mut bench = Benchmark::new(&switches(&["-s", "bash", "-c", "echo hi"])).unwrap();
    let (runs, _) = drive(&mut bench, &[0; 10], &[0; 10]);
    assert_eq!(runs.len(), 2 * TRIALS);
    for (k, (shell, script)) in runs.iter().enumerate() {
        assert_eq!(shell, "bash");
        if k % 2 == 0 {
            assert_eq!(script, "");
        } else {
            assert_eq!(script, "echo hi");
        }
    }
}

#[test]
fn end_to_end_bash_echo_reports_three_values() {
    let mut bench = Benchmark::new(&switches(&["-s", "bash", "-c", "echo hi"])).unwrap();
    let empty = [1_000, 1_100, 900, 1_000, 1_050, 950, 1_000, 1_000, 1_000, 1_000];
    let work = [1_500, 1_400, 1_600, 1_500, 1_500, 1_500, 1_500, 1_500, 1_500, 1_500];
    let (_, report) = drive(&mut bench, &empty, &work);
    assert_eq!(report, Report { empty_ns: 1_000, workload_ns: 1_500, net_ns: 500 });
    assert!(report.workload_ns >= 0);
}

#[test]
fn means_divide_sums_by_trial_count() {
    let mut bench = Benchmark::new(&switches(&["-sbash"])).unwrap();
    let empty = [7; 10];
    let work = [3, 0, 0, 0, 0, 0, 0, 0, 0, 1];
    let (_, report) = drive(&mut bench, &empty, &work);
    assert_eq!(report.empty_ns, 7);
    assert_eq!(report.workload_ns, 0);
    assert_eq!(report.net_ns, -7);
}

#[test]
fn net_duration_may_be_negative() {
    let mut bench = Benchmark::new(&switches(&["-sbash", "-c", "true"])).unwrap();
    let (_, report) = drive(&mut bench, &[2_000; 10], &[1_500; 10]);
    assert_eq!(report.net_ns, -500);
}

#[test]
fn negative_totals_round_toward_zero() {
    let mut bench = Benchmark::new(&switches(&["-sbash"])).unwrap();
    let (_, report) = drive(&mut bench, &[-19, 0, 0, 0, 0, 0, 0, 0, 0, 0], &[25, 0, 0, 0, 0, 0, 0, 0, 0, 0]);
    assert_eq!(report.empty_ns, -1);
    assert_eq!(report.workload_ns, 2);
    assert_eq!(report.net_ns, 3);
}

#[test]
fn largest_durations_do_not_overflow() {
    let mut bench = Benchmark::new(&switches(&["-sbash"])).unwrap();
    let (_, report) =
        drive(&mut bench, &[-DURATION_NS_BOUND; 10], &[DURATION_NS_BOUND; 10]);
    assert_eq!(report.empty_ns, -DURATION_NS_BOUND);
    assert_eq!(report.workload_ns, DURATION_NS_BOUND);
    assert_eq!(report.net_ns, 2 * DURATION_NS_BOUND);
}

#[test]
fn no_arguments_refuse_to_run() {
    let sw = switches(&[]);
    assert!(Benchmark::new(&sw).is_none());
}

#[test]
fn missing_shell_switch_refuses_to_run() {
    let sw = switches(&["-d", "-c", "ls"]);
    assert!(Benchmark::new(&sw).is_none());
}

#[test]
fn help_never_reaches_a_benchmark() {
    let args: Vec<String> = ["-s", "bash", "-d", "--help"].iter().map(|s| s.to_string()).collect();
    assert_eq!(Switches::new(&args).err(), Some(SwitchError::HelpRequested));
}

#[test]
fn stopwatch_measures_forward_time() {
    let watch = Stopwatch::start();
    let mut ns = watch.elapsed_ns();
    while ns < 1_000_000 {
        ns = watch.elapsed_ns();
    }
    assert!(ns >= 1_000_000, "elapsed {} ns", ns);
    assert!(ns < 60_000_000_000);
}
