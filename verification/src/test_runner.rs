//! The plan of a test run and the messages of the execution pipeline.

use crate::app::{catalog_view, App, TestInfo};
use crate::text::{decimal, decimal_string, string_views};
use crate::utils::{discovered, group_views, scan_for_tests, ScanError, SourceFile};
use vstd::prelude::*;
use vstd::string::StringExecFns;

verus! {

/// What it takes to run one test: the command, the file that declares the
/// test, whose directory the command runs in, and the line that announces the
/// run in the output.
pub struct RunPlan {
    pub banner: String,
    pub program: String,
    pub args: Vec<String>,
    pub source: String,
}

/// Decides how tests are run. Whether the fast runner is at hand is found out
/// once, before the session starts, and kept.
pub struct TestRunner {
    pub use_nextest: bool,
}

/// The line that announces the run of a test.
pub open spec fn banner_of(name: Seq<char>) -> Seq<char> {
    "Running test: "@ + name + "\n"@
}

/// The line that reports how a run ended.
pub open spec fn finish_of(status: Seq<char>) -> Seq<char> {
    "Test finished with status: "@ + status + "\n"@
}

/// The line that reports that the test command could not be started.
pub open spec fn failure_of(use_nextest: bool, reason: Seq<char>) -> Seq<char> {
    if use_nextest {
        "Failed to start nextest command: "@ + reason + "\n"@
    } else {
        "Failed to start test command: "@ + reason + "\n"@
    }
}

/// The arguments of the test command: the name of the test as a filter, and
/// the flag that keeps the runner from swallowing the test's output.
pub open spec fn args_of(name: Seq<char>, use_nextest: bool) -> Seq<Seq<char>> {
    if use_nextest {
        seq!["nextest"@, "run"@, name, "--no-capture"@]
    } else {
        seq!["test"@, name, "--"@, "--nocapture"@]
    }
}

/// The line that announces a scan.
pub open spec fn scan_started() -> Seq<char> {
    "Rescanning for tests...\n"@
}

/// The line that reports how many files with tests a scan found.
pub open spec fn scan_finished(files: nat) -> Seq<char> {
    "Rescan complete. Found "@ + decimal(files) + " test files.\n"@
}

impl TestRunner {
    /// A runner that uses the fast runner where `use_nextest` says it is at hand.
    pub fn new(use_nextest: bool) -> (runner: TestRunner)
        ensures
            runner.use_nextest == use_nextest,
    {
        TestRunner { use_nextest }
    }

    /// The plan for running the selected test; `None` where the selection
    /// names no test.
    pub fn run_test(&self, app: &App) -> (plan: Option<RunPlan>)
        ensures
            match plan {
                Some(plan) => {
                    &&& app.selected_name() matches Some(name)
                    &&& plan.banner@ == banner_of(name)
                    &&& plan.program@ == "cargo"@
                    &&& string_views(plan.args@) == args_of(name, self.use_nextest)
                    &&& plan.source@ == app.test_info@[app.selected_index as int].path@
                },
                None => app.selected_name() is None,
            },
    {
        if app.selected_index >= app.test_info.len() {
            return None;
        }
        let info = &app.test_info[app.selected_index];
        if app.selected_test >= info.tests.len() {
            return None;
        }
        let name = info.tests[app.selected_test].as_str();
        let mut banner = String::from_str("Running test: ");
        banner.append(name);
        banner.append("\n");
        let mut args: Vec<String> = Vec::new();
        if self.use_nextest {
            args.push(String::from_str("nextest"));
            args.push(String::from_str("run"));
            args.push(String::from_str(name));
            args.push(String::from_str("--no-capture"));
        } else {
            args.push(String::from_str("test"));
            args.push(String::from_str(name));
            args.push(String::from_str("--"));
            args.push(String::from_str("--nocapture"));
        }
        proof {
            assert(string_views(args@) =~= args_of(name@, self.use_nextest));
        }
        Some(RunPlan { banner, program: String::from_str("cargo"), args, source: info.path.clone() })
    }

    /// The line that reports how a run ended, from the text of its exit status.
    pub fn finish_line(status: &str) -> (line: String)
        ensures
            line@ == finish_of(status@),
    {
        let mut line = String::from_str("Test finished with status: ");
        line.append(status);
        line.append("\n");
        line
    }

    /// The line that stands in the output for a run whose command could not
    /// be started.
    pub fn failure_line(&self, reason: &str) -> (line: String)
        ensures
            line@ == failure_of(self.use_nextest, reason@),
    {
        let mut line = if self.use_nextest {
            String::from_str("Failed to start nextest command: ")
        } else {
            String::from_str("Failed to start test command: ")
        };
        line.append(reason);
        line.append("\n");
        line
    }

    /// Replaces the catalog of the session by what a scan of `sources` finds
    /// and selects the first test of the first group. Returns the lines that
    /// report the scan. Where the scan fails the catalog is left empty.
    pub fn scan_for_tests(&self, app: &mut App, sources: &Vec<SourceFile>) -> (report: Result<
        Vec<String>,
        ScanError,
    >)
        ensures
            match report {
                Ok(lines) => {
                    &&& discovered(sources@) == Some(catalog_view(final(app).test_info@))
                    &&& string_views(lines@) == seq![
                        scan_started(),
                        scan_finished(final(app).test_info@.len()),
                    ]
                },
                Err(error) => {
                    &&& error == ScanError::InvalidPattern
                    &&& discovered(sources@) is None
                    &&& final(app).test_info@.len() == 0
                },
            },
            final(app).selected_index == 0,
            final(app).selected_test == 0,
            final(app).selection_in_range(),
            final(app).active_pane == old(app).active_pane,
            final(app).test_output == old(app).test_output,
            final(app).watch_mode == old(app).watch_mode,
            final(app).output_scroll == old(app).output_scroll,
            final(app).output_height == old(app).output_height,
            final(app).should_quit == old(app).should_quit,
            final(app).follow_output == old(app).follow_output,
            old(app).wf() ==> final(app).wf(),
    {
        app.test_info.clear();
        app.selected_index = 0;
        app.selected_test = 0;
        let found = match scan_for_tests(sources) {
            Ok(found) => found,
            Err(error) => {
                return Err(error);
            },
        };
        let ghost groups = found@;
        for group in rest: found
            invariant
                rest.seq() == groups,
                catalog_view(app.test_info@) == group_views(groups.take(rest.index() as int)),
                app.selected_index == 0,
                app.selected_test == 0,
                app.active_pane == old(app).active_pane,
                app.test_output == old(app).test_output,
                app.watch_mode == old(app).watch_mode,
                app.output_scroll == old(app).output_scroll,
                app.output_height == old(app).output_height,
                app.should_quit == old(app).should_quit,
                app.follow_output == old(app).follow_output,
        {
            let ghost before = app.test_info@;
            let info = TestInfo { path: group.0, tests: group.1 };
            app.test_info.push(info);
            proof {
                assert(groups.take(rest.index() + 1).drop_last() == groups.take(rest.index() as int));
                assert(catalog_view(app.test_info@) == catalog_view(before).push(info@));
            }
        }
        proof {
            assert(groups.take(groups.len() as int) == groups);
        }
        let mut lines: Vec<String> = Vec::new();
        lines.push(String::from_str("Rescanning for tests...\n"));
        let mut done = String::from_str("Rescan complete. Found ");
        let count = decimal_string(app.test_info.len());
        done.append(count.as_str());
        done.append(" test files.\n");
        lines.push(done);
        proof {
            assert(string_views(lines@) =~= seq![
                scan_started(),
                scan_finished(app.test_info@.len()),
            ]);
        }
        Ok(lines)
    }
}

} // verus!
