use vstd::prelude::*;
use vstd::string::*;

use crate::text::{decimal_u64_of, parse_u64, trim, trimmed};

verus! {

/// What `build` produces.
#[derive(Debug, Clone, Copy, PartialEq, Eq, Structural)]
pub enum BuildTarget {
    /// The web assets.
    Web,
    /// AppImage and Debian packages.
    Linux,
    /// An AppImage only.
    Appimage,
    /// A Debian package only.
    Deb,
    /// A portable Windows executable, cross-built.
    WinExe,
    /// A Windows installer, cross-built.
    WinNsis,
    /// A portable Windows archive.
    WinZip,
}

/// What `prep` prepares.
#[derive(Debug, Clone, Copy, PartialEq, Eq, Structural)]
pub enum PrepTarget {
    /// The Rust target for Windows cross-builds.
    Win,
}

/// Which sources formatting covers.
#[derive(Debug, Clone, Copy, PartialEq, Eq, Structural)]
pub enum FmtWhich {
    All,
    Js,
    Rust,
}

/// One step of a developer task, carried out in order; the first that fails ends
/// the task.
#[derive(Debug, Clone, PartialEq)]
pub enum Step {
    /// Make sure the local command-line tooling is installed.
    EnsureCli,
    /// `npm run <script> <args>`, which fails when the script exits with failure.
    NpmRun { script: String, args: Vec<String> },
    /// Runs `program` with `args`; a failing exit code fails the task with `failure`.
    Check { program: String, args: Vec<String>, failure: String },
}

pub enum StepView {
    EnsureCli,
    NpmRun { script: Seq<char>, args: Seq<Seq<char>> },
    Check { program: Seq<char>, args: Seq<Seq<char>>, failure: Seq<char> },
}

impl View for Step {
    type V = StepView;

    open spec fn view(&self) -> StepView {
        match self {
            Step::EnsureCli => StepView::EnsureCli,
            Step::NpmRun { script, args } => StepView::NpmRun {
                script: script@,
                args: args.deep_view(),
            },
            Step::Check { program, args, failure } => StepView::Check {
                program: program@,
                args: args.deep_view(),
                failure: failure@,
            },
        }
    }
}

pub open spec fn steps_view(v: Seq<Step>) -> Seq<StepView> {
    v.map_values(|s: Step| s@)
}

pub open spec fn npm_step(script: Seq<char>) -> StepView {
    StepView::NpmRun { script, args: Seq::empty() }
}

fn npm_run(script: &str) -> (r: Step)
    ensures
        r@ == npm_step(script@),
{
    let args: Vec<String> = Vec::new();
    assert(args.deep_view() =~= Seq::<Seq<char>>::empty());
    Step::NpmRun { script: String::from_str(script), args }
}

/// The npm script that builds each target.
pub open spec fn build_script_of(target: BuildTarget) -> Seq<char> {
    match target {
        BuildTarget::Web => "build"@,
        BuildTarget::Linux => "tauri:build:linux"@,
        BuildTarget::Appimage => "tauri:build:appimage"@,
        BuildTarget::Deb => "tauri:build:deb"@,
        BuildTarget::WinExe => "cross:build:win:exe"@,
        BuildTarget::WinNsis => "cross:build:win:nsis"@,
        BuildTarget::WinZip => "cross:build:win:zip"@,
    }
}

/// Building a target: make sure the tooling is there, then run its npm script.
pub fn build(target: BuildTarget) -> (r: Vec<Step>)
    ensures
        steps_view(r@) == seq![StepView::EnsureCli, npm_step(build_script_of(target))],
{
    let script = match target {
        BuildTarget::Web => "build",
        BuildTarget::Linux => "tauri:build:linux",
        BuildTarget::Appimage => "tauri:build:appimage",
        BuildTarget::Deb => "tauri:build:deb",
        BuildTarget::WinExe => "cross:build:win:exe",
        BuildTarget::WinNsis => "cross:build:win:nsis",
        BuildTarget::WinZip => "cross:build:win:zip",
    };
    let r = vec![Step::EnsureCli, npm_run(script)];
    assert(steps_view(r@) =~= seq![StepView::EnsureCli, npm_step(build_script_of(target))]);
    r
}

/// Preparing a toolchain: its npm script.
pub fn prep(target: PrepTarget) -> (r: Vec<Step>)
    ensures
        steps_view(r@) == seq![npm_step("cross:prep:win"@)],
{
    let r = match target {
        PrepTarget::Win => vec![npm_run("cross:prep:win")],
    };
    assert(steps_view(r@) =~= seq![npm_step("cross:prep:win"@)]);
    r
}

pub open spec fn fmt_script_of(which: FmtWhich) -> Seq<char> {
    match which {
        FmtWhich::All => "fmt"@,
        FmtWhich::Js => "fmt:js"@,
        FmtWhich::Rust => "fmt:rust"@,
    }
}

/// Formatting: the npm script for the chosen sources.
pub fn fmt_cmd(which: FmtWhich) -> (r: Vec<Step>)
    ensures
        steps_view(r@) == seq![npm_step(fmt_script_of(which))],
{
    let script = match which {
        FmtWhich::All => "fmt",
        FmtWhich::Js => "fmt:js",
        FmtWhich::Rust => "fmt:rust",
    };
    let r = vec![npm_run(script)];
    assert(steps_view(r@) =~= seq![npm_step(fmt_script_of(which))]);
    r
}

/// Linting, or linting with fixes.
pub fn lint_cmd(fix: bool) -> (r: Vec<Step>)
    ensures
        steps_view(r@) == seq![npm_step(if fix { "lint:fix"@ } else { "lint"@ })],
{
    let r = if fix {
        vec![npm_run("lint:fix")]
    } else {
        vec![npm_run("lint")]
    };
    assert(steps_view(r@) =~= seq![npm_step(if fix { "lint:fix"@ } else { "lint"@ })]);
    r
}

/// Applying fixes: formatting everything, then linting with fixes.
pub fn fix_cmd() -> (r: Vec<Step>)
    ensures
        steps_view(r@) == seq![npm_step("fmt"@), npm_step("lint:fix"@)],
{
    let r = vec![npm_run("fmt"), npm_run("lint:fix")];
    assert(steps_view(r@) =~= seq![npm_step("fmt"@), npm_step("lint:fix"@)]);
    r
}

pub open spec fn ts_check_args() -> Seq<Seq<char>> {
    seq![
        "--no-install"@,
        "tsc"@,
        "--noEmit"@,
        "--incremental"@,
        "--tsBuildInfoFile"@,
        "./dist/.tsbuildinfo"@,
    ]
}

/// The TypeScript type check: `npx tsc --noEmit`, incremental.
pub fn ts_check_cmd() -> (r: Vec<Step>)
    ensures
        steps_view(r@) == seq![
            StepView::Check {
                program: "npx"@,
                args: ts_check_args(),
                failure: "tsc --noEmit failed"@,
            },
        ],
{
    let args = vec![
        String::from_str("--no-install"),
        String::from_str("tsc"),
        String::from_str("--noEmit"),
        String::from_str("--incremental"),
        String::from_str("--tsBuildInfoFile"),
        String::from_str("./dist/.tsbuildinfo"),
    ];
    assert(args.deep_view() =~= ts_check_args());
    let r = vec![
        Step::Check {
            program: String::from_str("npx"),
            args,
            failure: String::from_str("tsc --noEmit failed"),
        },
    ];
    assert(steps_view(r@) =~= seq![
        StepView::Check {
            program: "npx"@,
            args: ts_check_args(),
            failure: "tsc --noEmit failed"@,
        },
    ]);
    r
}

/// Runs `warm` once to warm caches, whatever its outcome, then `timed`, whose
/// outcome is the result.
pub fn bench_warm_then_time<T, E, W, M>(warm_label: &str, time_label: &str, warm: W, timed: M) -> (r:
    Result<T, E>) where W: FnOnce(&str) -> Result<T, E>, M: FnOnce(&str) -> Result<T, E>
    requires
        warm.requires((warm_label,)),
        timed.requires((time_label,)),
    ensures
        exists|w: Result<T, E>| warm.ensures((warm_label,), w),
        timed.ensures((time_label,), r),
{
    let _ = warm(warm_label);
    timed(time_label)
}

/// `s` without its leading `v` characters.
pub open spec fn strip_v(s: Seq<char>) -> Seq<char>
    decreases s.len(),
{
    if s.len() > 0 && s[0] == 'v' {
        strip_v(s.drop_first())
    } else {
        s
    }
}

/// The part of `s` before its first `.`, all of it when there is none.
pub open spec fn before_dot(s: Seq<char>) -> Seq<char>
    decreases s.len(),
{
    if s.len() == 0 || s[0] == '.' {
        Seq::empty()
    } else {
        seq![s[0]] + before_dot(s.drop_first())
    }
}

/// The major version in the output of `node -v` (such as `v18.19.0`): the number
/// before the first dot, once white space and leading `v`s are dropped; 0 when that
/// is not a number.
pub open spec fn node_major_of(out: Seq<char>) -> u64 {
    match decimal_u64_of(before_dot(strip_v(trimmed(out)))) {
        Some(v) => v,
        None => 0,
    }
}

/// The lowest Node.js major version the tooling supports.
pub const MIN_NODE_MAJOR: u64 = 18;

/// Reads the major version from the output of `node -v`.
pub fn node_major(out: &str) -> (r: u64)
    ensures
        r == node_major_of(out@),
{
    let t = trim(out);
    let s = t.as_str();
    let n = s.unicode_len();
    let mut i: usize = 0;
    assert(s@.subrange(0, n as int) =~= s@);
    while i < n && s.get_char(i) == 'v'
        invariant
            n == s@.len(),
            i <= n,
            strip_v(s@) == strip_v(s@.subrange(i as int, n as int)),
        decreases n - i,
    {
        assert(s@.subrange(i as int, n as int).drop_first() =~= s@.subrange(i + 1, n as int));
        i = i + 1;
    }
    let x = s.substring_char(i, n);
    assert(strip_v(s@) == x@) by {
        if i < n {
            assert(x@[0] != 'v');
        }
    }
    let m = x.unicode_len();
    let mut j: usize = 0;
    assert(x@.subrange(0, m as int) =~= x@);
    assert(x@.subrange(0, 0) + before_dot(x@) =~= before_dot(x@));
    while j < m && x.get_char(j) != '.'
        invariant
            m == x@.len(),
            j <= m,
            before_dot(x@) == x@.subrange(0, j as int) + before_dot(x@.subrange(j as int, m as int)),
        decreases m - j,
    {
        let ghost rest = x@.subrange(j as int, m as int);
        assert(rest.drop_first() =~= x@.subrange(j + 1, m as int));
        assert(x@.subrange(0, j as int) + seq![x@[j as int]] =~= x@.subrange(0, j + 1));
        assert(x@.subrange(0, j as int) + (seq![rest[0]] + before_dot(rest.drop_first())) =~= x@.subrange(0, j + 1) + before_dot(x@.subrange(j + 1, m as int)));
        j = j + 1;
    }
    assert(before_dot(x@.subrange(j as int, m as int)) =~= Seq::<char>::empty());
    assert(before_dot(x@) =~= x@.subrange(0, j as int));
    match parse_u64(x.substring_char(0, j)) {
        Some(v) => v,
        None => 0,
    }
}

} // verus!
