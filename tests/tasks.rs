use instances_finder::{
    bench_warm_then_time, build, fix_cmd, fmt_cmd, lint_cmd, node_major, prep, ts_check_cmd,
    BuildTarget,
    FmtWhich, PrepTarget, Step,
};

fn npm(script: &str) -> Step {
    Step::NpmRun { script: script.to_string(), args: Vec::new() }
}

#[test]
fn build_ensures_cli_then_runs_script() {
    assert_eq!(build(BuildTarget::Web), vec![Step::EnsureCli, npm("build")]);
    assert_eq!(build(BuildTarget::Deb), vec![Step::EnsureCli, npm("tauri:build:deb")]);
    assert_eq!(build(BuildTarget::WinZip), vec![Step::EnsureCli, npm("cross:build:win:zip")]);
}

#[test]
fn prep_fmt_lint_fix() {
    assert_eq!(prep(PrepTarget::Win), vec![npm("cross:prep:win")]);
    assert_eq!(fmt_cmd(FmtWhich::Js), vec![npm("fmt:js")]);
    assert_eq!(lint_cmd(true), vec![npm("lint:fix")]);
    assert_eq!(lint_cmd(false), vec![npm("lint")]);
    assert_eq!(fix_cmd(), vec![npm("fmt"), npm("lint:fix")]);
}

#[test]
fn ts_check_runs_tsc() {
    match &ts_check_cmd()[..] {
        [Step::Check { program, args, failure }] => {
            assert_eq!(program, "npx");
            assert_eq!(
                args,
                &vec!["--no-install", "tsc", "--noEmit", "--incremental", "--tsBuildInfoFile", "./dist/.tsbuildinfo"]
            );
            assert_eq!(failure, "tsc --noEmit failed");
        }
        other => panic!("unexpected plan {:?}", other),
    }
}

#[test]
fn bench_reports_the_timed_run() {
    let r: Result<u32, String> = bench_warm_then_time(
        "warm",
        "timed",
        |l| {
            assert_eq!(l, "warm");
            Err("cold".to_string())
        },
        |l| {
            assert_eq!(l, "timed");
            Ok(42)
        },
    );
    assert_eq!(r, Ok(42));
}

#[test]
fn node_major_version() {
    assert_eq!(node_major("v18.19.0\n"), 18);
    assert_eq!(node_major("  v20.1.0 "), 20);
    assert_eq!(node_major("vv7"), 7);
    assert_eq!(node_major("+16.0"), 16);
    assert_eq!(node_major("v.1"), 0);
    assert_eq!(node_major("node"), 0);
    assert_eq!(node_major(""), 0);
}

#[test]
fn bench_always_runs_the_warm_up_first() {
    let order = std::cell::RefCell::new(Vec::new());
    let r: Result<u32, String> = bench_warm_then_time(
        "w",
        "t",
        |_| {
            order.borrow_mut().push("warm");
            Ok(1)
        },
        |_| {
            order.borrow_mut().push("timed");
            Err("slow".to_string())
        },
    );
    assert_eq!(r, Err("slow".to_string()));
    assert_eq!(*order.borrow(), vec!["warm", "timed"]);
}
