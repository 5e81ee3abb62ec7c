use cvutie::compile::{CompileResult, CompilerDriver};
use cvutie::config::{Config, RegionError};
use cvutie::fixture::FixtureDiscoverer;
use cvutie::orchestrator::{Fixture, RunErrorKind, TestOrchestrator, Verdict};
use cvutie::pipeline::{classify_stage, PipelineAction, PipelineEngine, PipelineStage, StageOutcome};
use cvutie::region::{RegionResolver, ResolveError};
use cvutie::runner::{outputs_match, RunOutcome};

fn strings(words: &[&str]) -> Vec<String> {
    words.iter().map(|w| w.to_string()).collect()
}

#[test]
fn default_config_values() {
    let c = Config::default();
    assert_eq!(c.c_compiler, "g++");
    assert_eq!(
        c.c_compiler_opts,
        strings(&["-std=c++20", "-Wall", "-pedantic", "-Wno-long-long", "-O2", "-o"])
    );
    assert_eq!(c.source_code_filenames, strings(&["main.c"]));
    assert_eq!(c.test_folder_names, strings(&["CZE", "ENG"]));
    assert_eq!(c.default_bin_output_name, "out");
    assert!(c.pipes.is_empty());
    assert!(c.regions.is_empty());
}

#[test]
fn region_resolves_in_original_order() {
    let mut c = Config::default();
    c.define_region("pa1".to_string(), strings(&["d1", "d2", "d3"]), false, false)
        .unwrap();
    let dirs = RegionResolver::resolve(&c, &"pa1".to_string(), false).unwrap();
    assert_eq!(dirs, strings(&["d1", "d2", "d3"]));
}

#[test]
fn resolve_falls_back_to_path() {
    let c = Config::default();
    let dirs = RegionResolver::resolve(&c, &"/tmp/project".to_string(), true).unwrap();
    assert_eq!(dirs, strings(&["/tmp/project"]));
    let err = RegionResolver::resolve(&c, &"nowhere".to_string(), false).unwrap_err();
    assert_eq!(err, ResolveError::UnknownTarget);
}

#[test]
fn define_region_needs_force_to_overwrite() {
    let mut c = Config::default();
    c.define_region("r".to_string(), strings(&["a"]), false, false).unwrap();
    let err = c
        .define_region("r".to_string(), strings(&["b"]), false, false)
        .unwrap_err();
    assert_eq!(err, RegionError::RegionExists);
    assert_eq!(c.regions[0].dirs, strings(&["a"]));
    c.define_region("r".to_string(), strings(&["b"]), false, true).unwrap();
    assert_eq!(c.regions[0].dirs, strings(&["b"]));
}

#[test]
fn define_region_add_appends() {
    let mut c = Config::default();
    c.define_region("r".to_string(), strings(&["a"]), true, false).unwrap();
    c.define_region("r".to_string(), strings(&["b", "c"]), true, false).unwrap();
    assert_eq!(c.regions.len(), 1);
    assert_eq!(c.regions[0].dirs, strings(&["a", "b", "c"]));
}

#[test]
fn select_source_picks_first_present() {
    let candidates = strings(&["main.c", "main.cpp", "prog.c"]);
    assert_eq!(
        CompilerDriver::select_source(&candidates, &vec![false, true, true]),
        Some(1)
    );
    assert_eq!(
        CompilerDriver::select_source(&candidates, &vec![false, false, false]),
        None
    );
}

#[test]
fn build_command_orders_arguments() {
    let c = Config::default();
    let settings = c.compile_settings();
    let cmd = CompilerDriver::build_command(
        &settings,
        &"/work/pa1".to_string(),
        &"main.c".to_string(),
        &None,
    );
    assert_eq!(cmd.program, "g++");
    assert_eq!(cmd.working_dir, "/work/pa1");
    assert_eq!(
        cmd.args,
        strings(&["-std=c++20", "-Wall", "-pedantic", "-Wno-long-long", "-O2", "-o", "out", "main.c"])
    );
    let cmd2 = CompilerDriver::build_command(
        &settings,
        &"/work/pa1".to_string(),
        &"main.c".to_string(),
        &Some("prog".to_string()),
    );
    assert_eq!(cmd2.args[6], "prog");
    assert_eq!(cmd2.args[5], "-o");
}

#[test]
fn interpret_success_needs_artifact_on_disk() {
    match CompilerDriver::interpret(0, String::new(), "/w/out".to_string(), true) {
        CompileResult::Success { artifact } => assert_eq!(artifact, "/w/out"),
        _ => panic!("expected success"),
    }
    match CompilerDriver::interpret(0, String::new(), "/w/out".to_string(), false) {
        CompileResult::ArtifactMissing { artifact } => assert_eq!(artifact, "/w/out"),
        _ => panic!("expected missing artifact"),
    }
}

#[test]
fn interpret_keeps_diagnostics_verbatim() {
    let diag = "main.c:3:1: error: expected ';' before '}' token\n".to_string();
    match CompilerDriver::interpret(1, diag.clone(), "/w/out".to_string(), false) {
        CompileResult::CompilerError { diagnostics, exit_code } => {
            assert_eq!(diagnostics, diag);
            assert_eq!(exit_code, 1);
        },
        _ => panic!("expected compiler error"),
    }
}

#[test]
fn outputs_match_ignores_trailing_newlines() {
    assert!(outputs_match(&b"hello".to_vec(), &b"hello\n".to_vec()));
    assert!(outputs_match(&b"hello\n\n".to_vec(), &b"hello".to_vec()));
    assert!(outputs_match(&Vec::new(), &b"\n".to_vec()));
    assert!(!outputs_match(&b"a b".to_vec(), &b"ab".to_vec()));
    assert!(!outputs_match(&b"a\nb".to_vec(), &b"ab".to_vec()));
}

fn fixture(id: &str, folder: &str, input: &[u8], expected: &[u8]) -> Fixture {
    Fixture {
        id: id.to_string(),
        folder: folder.to_string(),
        input: input.to_vec(),
        expected: expected.to_vec(),
    }
}

#[test]
fn timeout_is_a_distinct_verdict() {
    let f = fixture("t1", "CZE", b"", b"42\n");
    let r = TestOrchestrator::evaluate_fixture(&"/w".to_string(), &f, RunOutcome::TimedOut, 100);
    match r.verdict {
        Verdict::RunError { reason } => assert_eq!(reason, RunErrorKind::TimedOut),
        _ => panic!("expected a timeout run error"),
    }
}

#[test]
fn report_counts_per_folder() {
    let dir = "/w/pa1".to_string();
    let fixtures = vec![
        fixture("01", "CZE", b"1", b"one\n"),
        fixture("02", "CZE", b"2", b"two\n"),
        fixture("03", "CZE", b"3", b"three\n"),
    ];
    let outcomes = vec![
        RunOutcome::Completed { exit_code: 0, stdout: b"one\n".to_vec(), stderr: Vec::new() },
        RunOutcome::Completed { exit_code: 0, stdout: b"two".to_vec(), stderr: Vec::new() },
        RunOutcome::Completed { exit_code: 0, stdout: b"tree\n".to_vec(), stderr: Vec::new() },
    ];
    let results = TestOrchestrator::target_results(&dir, &fixtures, true, outcomes, &vec![5, 6, 7]);
    match &results[2].verdict {
        Verdict::Fail { expected, actual } => {
            assert_eq!(expected, b"three\n");
            assert_eq!(actual, b"tree\n");
        },
        _ => panic!("expected a fail verdict with the diff"),
    }
    let report = TestOrchestrator::build_report(results);
    assert_eq!(report.folder_counts.len(), 1);
    let cze = &report.folder_counts[0];
    assert_eq!(cze.key, "CZE");
    assert_eq!(cze.pass, 2);
    assert_eq!(cze.fail, 1);
    assert_eq!(cze.error, 0);
}

#[test]
fn compile_failure_marks_every_fixture() {
    let dir = "/w/pa2".to_string();
    let fixtures = vec![
        fixture("01", "CZE", b"", b"a"),
        fixture("02", "ENG", b"", b"b"),
    ];
    let results = TestOrchestrator::target_results(&dir, &fixtures, false, Vec::new(), &Vec::new());
    assert_eq!(results.len(), 2);
    for r in &results {
        match &r.verdict {
            Verdict::RunError { reason } => assert_eq!(*reason, RunErrorKind::CompileFailed),
            _ => panic!("expected a compile-failed run error"),
        }
    }
    let report = TestOrchestrator::build_report(results);
    for count in &report.folder_counts {
        assert_eq!(count.pass, 0);
        assert_eq!(count.fail, 0);
        assert_eq!(count.error, 1);
    }
}

fn run_pipeline(
    mut engine: PipelineEngine,
    outcomes: Vec<StageOutcome>,
) -> (usize, PipelineAction) {
    let mut outcomes = outcomes.into_iter();
    let mut invocations = 0usize;
    loop {
        match engine.next_action() {
            PipelineAction::RunStage { .. } => {
                invocations += 1;
                engine.record(outcomes.next().expect("stage outcome"));
            },
            done => return (invocations, done),
        }
    }
}

#[test]
fn pipeline_chains_stages_and_commits() {
    let stages = vec![
        classify_stage(strings(&["compile", "pa1"])).unwrap(),
        classify_stage(strings(&["echo", "done"])).unwrap(),
    ];
    let engine = PipelineEngine::new(stages);
    let first = engine.next_action();
    match first {
        PipelineAction::RunStage { index, input } => {
            assert_eq!(index, 0);
            assert!(input.is_empty());
        },
        _ => panic!("expected the first stage to run"),
    }
    let (invocations, done) = run_pipeline(
        engine,
        vec![
            StageOutcome::Output(b"artifact built".to_vec()),
            StageOutcome::Output(b"done\n".to_vec()),
        ],
    );
    assert_eq!(invocations, 2);
    match done {
        PipelineAction::Commit { output } => assert_eq!(output, b"done\n".to_vec()),
        _ => panic!("expected the output to be committed"),
    }
}

#[test]
fn pipeline_failure_skips_later_stages() {
    let stages = vec![
        classify_stage(strings(&["compile", "broken"])).unwrap(),
        classify_stage(strings(&["echo", "done"])).unwrap(),
    ];
    let engine = PipelineEngine::new(stages);
    let (invocations, done) = run_pipeline(
        engine,
        vec![StageOutcome::Failed("compilation failed".to_string())],
    );
    assert_eq!(invocations, 1);
    match done {
        PipelineAction::Abort { index, cause } => {
            assert_eq!(index, 0);
            assert_eq!(cause, "compilation failed");
        },
        _ => panic!("expected an abort naming the failed stage"),
    }
}

#[test]
fn pipeline_with_no_stages_commits_nothing() {
    let engine = PipelineEngine::new(Vec::new());
    match engine.next_action() {
        PipelineAction::Commit { output } => assert!(output.is_empty()),
        _ => panic!("expected an immediate empty commit"),
    }
}

#[test]
fn classify_stage_recognizes_internal_commands() {
    match classify_stage(strings(&["compile", "pa1"])).unwrap() {
        PipelineStage::Internal { subcommand, args } => {
            assert_eq!(subcommand, "compile");
            assert_eq!(args, strings(&["pa1"]));
        },
        _ => panic!("expected an internal stage"),
    }
    match classify_stage(strings(&["python3", "check.py"])).unwrap() {
        PipelineStage::External { program, args } => {
            assert_eq!(program, "python3");
            assert_eq!(args, strings(&["check.py"]));
        },
        _ => panic!("expected an external stage"),
    }
    assert!(classify_stage(Vec::new()).is_none());
}

#[test]
fn pair_fixtures_by_stem() {
    let folder = "CZE".to_string();
    let names = strings(&["01.in", "01.out", "02.out", "03.in", "notes.txt"]);
    let (plans, malformed) = FixtureDiscoverer::pair_fixtures(&folder, &names);
    assert_eq!(plans.len(), 2);
    assert_eq!(plans[0].id, "01");
    assert_eq!(plans[0].folder, "CZE");
    assert_eq!(plans[0].input_name, Some("01.in".to_string()));
    assert_eq!(plans[0].expected_name, "01.out");
    assert_eq!(plans[1].id, "02");
    assert_eq!(plans[1].input_name, None);
    assert_eq!(plans[1].expected_name, "02.out");
    assert_eq!(malformed, strings(&["03.in"]));
}

#[test]
fn echoed_input_passes_exactly() {
    let f = fixture("echo", "ENG", b"line1\nline2\n", b"line1\nline2\n");
    let outcome = RunOutcome::Completed {
        exit_code: 0,
        stdout: b"line1\nline2\n".to_vec(),
        stderr: Vec::new(),
    };
    let r = TestOrchestrator::evaluate_fixture(&"/w".to_string(), &f, outcome, 1);
    assert!(matches!(r.verdict, Verdict::Pass));
}

#[test]
fn launch_failure_is_reported() {
    let f = fixture("t", "CZE", b"", b"x");
    let r = TestOrchestrator::evaluate_fixture(&"/w".to_string(), &f, RunOutcome::LaunchFailed, 0);
    match r.verdict {
        Verdict::RunError { reason } => assert_eq!(reason, RunErrorKind::LaunchFailed),
        _ => panic!("expected a launch-failed run error"),
    }
}
