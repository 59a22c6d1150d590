use cargo_compiler_interrupts::cargo::{parse_linkers, Linker};
use cargo_compiler_interrupts::config::Config;
use cargo_compiler_interrupts::diagnose::{check_outcome, ToolOutcome};
use cargo_compiler_interrupts::link::rewrite_linker;
use cargo_compiler_interrupts::pipeline::{
    integrate, may_link, PipelineTask, Signal, Stage, Work,
};
use cargo_compiler_interrupts::plan::plan;
use cargo_compiler_interrupts::progress::Reporter;
use cargo_compiler_interrupts::stale::{diff, snapshot, Entry};

fn texts(all: &[&str]) -> Vec<String> {
    all.iter().map(|s| String::from(*s)).collect()
}

fn entry(path: &str, mtime: i128) -> Entry {
    Entry { path: String::from(path), is_file: true, mtime }
}

fn config() -> Config {
    Config {
        library_path: String::from("/cfg/CompilerInterrupt-abc.so"),
        library_debug_path: String::from("/cfg/CompilerInterrupt-abc-debug.so"),
        library_args: texts(&["-inst-gran=2"]),
        llvm_version: String::from("14.0.5"),
        checksum: String::from("abc"),
        url: String::from("https://example.org/ci.cpp"),
    }
}

fn link_log() -> Vec<String> {
    texts(&[
        "INFO rustc_codegen_ssa::back::link cc /t/debug/deps/app-0a.app.0.rcgu.o /t/debug/deps/libcompiler_builtins-1.rlib -o /t/debug/deps/app-0a",
        "INFO rustc_codegen_ssa::back::link cc /t/debug/deps/tool-0b.tool.0.rcgu.o /t/debug/deps/libcompiler_builtins-1.rlib -o /t/debug/deps/tool-0b",
    ])
}

fn files() -> Vec<String> {
    texts(&[
        "/t/debug/deps/app-0a.app.0.rcgu.o",
        "/t/debug/deps/tool-0b.tool.0.rcgu.o",
        "/t/debug/deps/libcompiler_builtins-1.rlib",
    ])
}

fn after_build() -> Vec<Entry> {
    vec![
        entry("/t/debug/deps/app-0a.app.0.rcgu.ll", 100),
        entry("/t/debug/deps/app-0a.app.0.rcgu.o", 100),
        entry("/t/debug/deps/app-0a", 101),
        entry("/t/debug/deps/tool-0b.tool.0.rcgu.ll", 100),
        entry("/t/debug/deps/tool-0b.tool.0.rcgu.o", 100),
        entry("/t/debug/deps/tool-0b", 101),
    ]
}

/// Runs the tasks of a plan with tools that always succeed, and tells which
/// work was asked for, in order.
fn run_tasks(ir_files: &Vec<String>, skip: &Option<Vec<String>>, crates: &Vec<String>) -> (Vec<PipelineTask>, Vec<String>) {
    let mut asked = Vec::new();
    let mut tasks = Vec::new();
    for file in ir_files {
        let mut task = PipelineTask::new(file).unwrap();
        loop {
            match task.work(&config(), crates, false) {
                Work::Probe(args) => {
                    asked.push(format!("nm {}", args.join(" ")));
                    let decided = integrate("main\n", skip, &task.crate_name);
                    task.advance(Signal::Decided(decided));
                }
                Work::Rewrite(args) => {
                    asked.push(format!("opt {}", args.join(" ")));
                    task.advance(Signal::Succeeded);
                }
                Work::CopyForward(from, to) => {
                    asked.push(format!("copy {} {}", from, to));
                    task.advance(Signal::Succeeded);
                }
                Work::Compile(args) => {
                    asked.push(format!("llc {}", args.join(" ")));
                    task.advance(Signal::Succeeded);
                }
                Work::Nothing => break,
            }
        }
        tasks.push(task);
    }
    (tasks, asked)
}

#[test]
fn two_binaries_one_skipped() {
    let crates = texts(&["app", "tool"]);
    let skip = Some(texts(&["tool"]));
    let stale = diff(&snapshot(&Vec::new()), &snapshot(&after_build()));
    let linkers: Vec<Linker> = parse_linkers(link_log(), &files()).unwrap();
    let p = plan(&stale, &crates, &linkers).unwrap();
    assert_eq!(
        p.ir_files,
        texts(&["/t/debug/deps/app-0a.app.0.rcgu.ll", "/t/debug/deps/tool-0b.tool.0.rcgu.ll"])
    );
    assert_eq!(p.stale_crates, texts(&["app", "tool"]));
    assert_eq!(p.links, vec![0, 1]);

    let (tasks, asked) = run_tasks(&p.ir_files, &skip, &crates);
    assert_eq!(
        asked,
        texts(&[
            "nm -jU /t/debug/deps/app-0a.app.0.rcgu.o",
            "opt -S -load /cfg/CompilerInterrupt-abc.so -logicalclock -defclock=1 -inst-gran=2 /t/debug/deps/app-0a.app.0.rcgu.ll -o /t/debug/deps/app-0a.app.0.rcgu-ci.ll",
            "llc -filetype=obj /t/debug/deps/app-0a.app.0.rcgu-ci.ll",
            "nm -jU /t/debug/deps/tool-0b.tool.0.rcgu.o",
            "copy /t/debug/deps/tool-0b.tool.0.rcgu.ll /t/debug/deps/tool-0b.tool.0.rcgu-ci.ll",
            "llc -filetype=obj /t/debug/deps/tool-0b.tool.0.rcgu-ci.ll",
        ])
    );
    assert!(may_link(&tasks));

    let mut linkers = linkers;
    for index in p.links {
        let symbols = texts(&["main\n"]);
        rewrite_linker(&mut linkers[index], &symbols).unwrap();
    }
    assert_eq!(
        linkers[0].command,
        texts(&[
            "/t/debug/deps/app-0a.app.0.rcgu-ci.o",
            "/t/debug/deps/libcompiler_builtins-1.rlib",
            "-o",
            "/t/debug/deps/app-0a",
        ])
    );
    assert_eq!(linkers[0].args.input_files, texts(&["/t/debug/deps/app-0a.app.0.rcgu-ci.o"]));
    assert_eq!(linkers[1].args.input_files, texts(&["/t/debug/deps/tool-0b.tool.0.rcgu-ci.o"]));
    assert_eq!(linkers[0].args.output_file, "/t/debug/deps/app-0a");
}

#[test]
fn a_second_run_without_changes_does_nothing() {
    let crates = texts(&["app", "tool"]);
    let mut with_ci = after_build();
    with_ci.push(entry("/t/debug/deps/app-0a.app.0.rcgu-ci.ll", 102));
    with_ci.push(entry("/t/debug/deps/app-0a.app.0.rcgu-ci.o", 103));
    with_ci.push(entry("/t/debug/app-ci", 104));
    let stale = diff(&snapshot(&with_ci), &snapshot(&with_ci));
    assert!(stale.is_empty());
    let linkers: Vec<Linker> = parse_linkers(link_log(), &files()).unwrap();
    assert!(plan(&stale, &crates, &linkers).is_none());
}

#[test]
fn a_change_to_one_binary_leaves_the_other_alone() {
    let crates = texts(&["app", "tool"]);
    let mut later = after_build();
    later[0].mtime = 200;
    later[1].mtime = 200;
    later[2].mtime = 201;
    let stale = diff(&snapshot(&after_build()), &snapshot(&later));
    let linkers: Vec<Linker> = parse_linkers(link_log(), &files()).unwrap();
    let p = plan(&stale, &crates, &linkers).unwrap();
    assert_eq!(p.ir_files, texts(&["/t/debug/deps/app-0a.app.0.rcgu.ll"]));
    assert_eq!(p.stale_crates, texts(&["app"]));
    assert_eq!(p.links, vec![0]);
}

#[test]
fn a_failed_rewrite_pass_holds_the_linkers_back() {
    let crates = texts(&["app"]);
    let mut reporter = Reporter::new();
    let mut task = PipelineTask::new("/t/debug/deps/app-0a.app.0.rcgu.ll").unwrap();
    for event in task.advance(Signal::Decided(true)) {
        reporter.handle(event, 80);
    }
    assert!(matches!(task.work(&config(), &crates, false), Work::Rewrite(_)));
    let outcome = ToolOutcome::Failed {
        desc: String::from("process didn't exit successfully: `opt` (exit status: 1)\n--- stderr\nopt: bad input"),
    };
    let failure = check_outcome(outcome, &task.ci_file, &None).unwrap_err();
    for event in task.advance(Signal::Failed(failure)) {
        let drawn = reporter.handle(event, 80);
        assert_eq!(drawn.len(), 1);
    }
    assert_eq!(task.stage, Stage::Error);
    assert!(reporter.failed);
    let told = task.failure().unwrap();
    assert!(told.starts_with("integration of `app` failed at `opt`: "));
    assert!(told.contains("opt: bad input"));
    assert!(matches!(task.work(&config(), &crates, false), Work::Nothing));
    assert!(!may_link(&vec![task]));
}
