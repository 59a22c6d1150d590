use cargo_compiler_interrupts::cargo::{
    classify, is_linker_line, linker_candidates, parse_linker, parse_linkers, split_linker_line,
    Cargo, LinkerArgs, LogLine,
};
use cargo_compiler_interrupts::error::Error;
use cargo_compiler_interrupts::target::{
    find_target_dir, has_link, output_file_records, target_dir, target_filenames, FileFlavor,
    OutputFile,
};

const LINK_LINE: &str = "INFO rustc_codegen_ssa::back::link \"cc\" \"-m64\" \"/tmp/x/foo.o\" \"-L\" \"/lib/dir\" \"/tmp/x/libcompiler_builtins-abc.rlib\" \"-Wl,--gc-sections\" \"-o\" \"/tmp/x/target/debug/deps/foo-123\" \"-nodefaultlibs\"";

fn texts(all: &[&str]) -> Vec<String> {
    all.iter().map(|s| String::from(*s)).collect()
}

fn file(hardlink: Option<&str>) -> OutputFile {
    OutputFile {
        path: String::from("/ws/target/debug/deps/foo-abc"),
        hardlink: hardlink.map(String::from),
        export_path: None,
        flavor: FileFlavor::Normal,
    }
}

#[test]
fn linker_line_is_known_by_its_marker() {
    assert!(is_linker_line(LINK_LINE));
    assert!(!is_linker_line("INFO rustc_codegen_ssa::back::link preparing Executable"));
}

#[test]
fn linker_line_is_split_into_words() {
    assert_eq!(
        split_linker_line(LINK_LINE),
        texts(&[
            "cc",
            "-m64",
            "/tmp/x/foo.o",
            "-L",
            "/lib/dir",
            "/tmp/x/libcompiler_builtins-abc.rlib",
            "-Wl,--gc-sections",
            "-o",
            "/tmp/x/target/debug/deps/foo-123",
            "-nodefaultlibs",
        ])
    );
    assert_eq!(split_linker_line("INFO only"), Vec::<String>::new());
    assert_eq!(split_linker_line(""), Vec::<String>::new());
}

#[test]
fn linker_arguments_are_sorted() {
    let files = texts(&["/tmp/x/foo.o", "/tmp/x/libcompiler_builtins-abc.rlib"]);
    let linker = parse_linker(LINK_LINE, &files).unwrap().unwrap();
    assert_eq!(linker.program, "cc");
    assert_eq!(linker.args.input_files, texts(&["/tmp/x/foo.o"]));
    assert_eq!(linker.args.output_file, "/tmp/x/target/debug/deps/foo-123");
    assert_eq!(linker.args.rlib_files, texts(&["/tmp/x/libcompiler_builtins-abc.rlib"]));
    assert_eq!(linker.args.library_dirs, texts(&["/lib/dir"]));
    assert_eq!(linker.args.flags, texts(&["-m64", "-Wl,--gc-sections", "-nodefaultlibs"]));
    assert_eq!(
        linker.command,
        texts(&[
            "-m64",
            "/tmp/x/foo.o",
            "-L",
            "/lib/dir",
            "/tmp/x/libcompiler_builtins-abc.rlib",
            "-Wl,--gc-sections",
            "-o",
            "/tmp/x/target/debug/deps/foo-123",
            "-nodefaultlibs",
        ])
    );
}

#[test]
fn a_word_that_names_no_file_is_a_flag() {
    let linker = parse_linker(LINK_LINE, &Vec::new()).unwrap().unwrap();
    assert_eq!(linker.args.input_files, Vec::<String>::new());
    assert_eq!(linker.args.rlib_files, Vec::<String>::new());
    assert_eq!(
        linker.args.flags,
        texts(&[
            "-m64",
            "/tmp/x/foo.o",
            "/tmp/x/libcompiler_builtins-abc.rlib",
            "-Wl,--gc-sections",
            "-nodefaultlibs",
        ])
    );
}

#[test]
fn a_word_that_holds_the_output_flag_takes_the_next_word() {
    let line = "INFO link cc /home/me/my-own/foo.o out libcompiler_builtins.rlib";
    let files = texts(&["/home/me/my-own/foo.o", "libcompiler_builtins.rlib"]);
    let linker = parse_linker(line, &files).unwrap().unwrap();
    assert_eq!(linker.args.output_file, "out");
    assert_eq!(linker.args.input_files, Vec::<String>::new());
    assert_eq!(linker.args.rlib_files, texts(&["libcompiler_builtins.rlib"]));
}

#[test]
fn a_line_without_output_holds_no_invocation() {
    assert!(parse_linker("INFO link cc libcompiler_builtins x.o", &Vec::new()).unwrap().is_none());
    assert!(parse_linker("INFO link libcompiler_builtins", &Vec::new()).unwrap().is_none());
    let log = texts(&["INFO link libcompiler_builtins", "INFO link cc libcompiler_builtins -L d"]);
    assert!(parse_linkers(log, &Vec::new()).unwrap().is_empty());
}

#[test]
fn a_line_with_two_outputs_is_an_error() {
    assert!(matches!(
        parse_linker("INFO link cc libcompiler_builtins -o a -o b", &Vec::new()),
        Err(Error::SeveralOutputFiles)
    ));
    assert!(matches!(
        parse_linker("INFO link cc /my-own/x.o libcompiler_builtins -o out", &Vec::new()),
        Err(Error::SeveralOutputFiles)
    ));
    assert!(matches!(
        parse_linkers(texts(&[LINK_LINE, "INFO link cc libcompiler_builtins -o a -o b"]), &Vec::new()),
        Err(Error::SeveralOutputFiles)
    ));
}

#[test]
fn the_word_after_an_output_flag_is_no_flag_itself() {
    let linker = parse_linker("INFO link cc libcompiler_builtins -o -o", &Vec::new()).unwrap().unwrap();
    assert_eq!(linker.args.output_file, "-o");
    let linker = parse_linker("INFO link cc libcompiler_builtins -L -o -o x", &Vec::new()).unwrap().unwrap();
    assert_eq!(linker.args.library_dirs, texts(&["-o"]));
    assert_eq!(linker.args.output_file, "x");
}

#[test]
fn every_linker_handed_out_names_its_output() {
    let log = texts(&[LINK_LINE, "INFO link cc libcompiler_builtins", "INFO link ld libcompiler_builtins -o b"]);
    let linkers = parse_linkers(log, &Vec::new()).unwrap();
    assert_eq!(linkers.len(), 2);
    assert!(linkers.iter().all(|l| !l.args.output_file.is_empty()));
    assert_eq!(linkers[1].args.output_file, "b");
}

#[test]
fn a_linker_line_without_program_is_an_error() {
    assert!(matches!(
        parse_linker("INFO libcompiler_builtins", &Vec::new()),
        Err(Error::MissingLinkerProgram)
    ));
}

#[test]
fn an_output_flag_at_the_end_is_an_error() {
    assert!(matches!(
        parse_linker("INFO link cc libcompiler_builtins -o", &Vec::new()),
        Err(Error::MissingOutputFile)
    ));
}

#[test]
fn a_library_flag_at_the_end_is_an_error() {
    assert!(matches!(
        parse_linker("INFO link cc libcompiler_builtins -L", &Vec::new()),
        Err(Error::MissingLibraryDir)
    ));
}

#[test]
fn lines_without_the_marker_are_passed_over() {
    let log = texts(&[
        "INFO rustc_codegen_ssa::back::link preparing Executable to \"/x/foo\"",
        LINK_LINE,
        "INFO rustc_codegen_ssa::back::link cc -o nothing",
    ]);
    let linkers = parse_linkers(log, &Vec::new()).unwrap();
    assert_eq!(linkers.len(), 1);
    assert_eq!(linkers[0].program, "cc");
    assert_eq!(linkers[0].args.output_file, "/tmp/x/target/debug/deps/foo-123");
}

#[test]
fn the_first_bad_linker_line_fails_the_whole() {
    let log = texts(&[LINK_LINE, "INFO link cc libcompiler_builtins -L", "INFO link cc libcompiler_builtins -o"]);
    assert!(matches!(parse_linkers(log, &Vec::new()), Err(Error::MissingLibraryDir)));
}

#[test]
fn parsing_twice_gives_the_same() {
    let files = texts(&["/tmp/x/foo.o", "/tmp/x/libcompiler_builtins-abc.rlib"]);
    let log = texts(&[LINK_LINE, "noise", LINK_LINE]);
    let first = parse_linkers(log.clone(), &files).unwrap();
    let second = parse_linkers(log, &files).unwrap();
    assert_eq!(first.len(), second.len());
    for (a, b) in first.iter().zip(second.iter()) {
        assert_eq!(a.program, b.program);
        assert_eq!(a.args.input_files, b.args.input_files);
        assert_eq!(a.args.output_file, b.args.output_file);
        assert_eq!(a.args.rlib_files, b.args.rlib_files);
        assert_eq!(a.args.library_dirs, b.args.library_dirs);
        assert_eq!(a.args.flags, b.args.flags);
        assert_eq!(a.command, b.command);
    }
}

#[test]
fn candidates_are_the_words_of_linker_lines() {
    let log = texts(&["noise a b c", "INFO link cc libcompiler_builtins x.o"]);
    assert_eq!(linker_candidates(&log), texts(&["cc", "libcompiler_builtins", "x.o"]));
}

#[test]
fn linker_args_are_built_in_order() {
    let args = LinkerArgs {
        input_files: texts(&["a.o", "b.o"]),
        output_file: String::from("out"),
        rlib_files: texts(&["libx.rlib"]),
        library_dirs: texts(&["/d1", "/d2"]),
        flags: texts(&["-m64", "-pie"]),
    };
    assert_eq!(
        args.build(),
        texts(&["a.o", "b.o", "-o", "out", "libx.rlib", "-L", "/d1", "-L", "/d2", "-m64", "-pie"])
    );
}

#[test]
fn linker_args_of_nothing() {
    let args = LinkerArgs {
        input_files: Vec::new(),
        output_file: String::new(),
        rlib_files: Vec::new(),
        library_dirs: Vec::new(),
        flags: Vec::new(),
    };
    assert_eq!(args.build(), texts(&["-o", ""]));
}

#[test]
fn with_args_keeps_the_arguments() {
    let cargo = Cargo::with_args(texts(&["--release", "--bin", "foo"]));
    assert_eq!(cargo.args, texts(&["--release", "--bin", "foo"]));
    assert!(cargo.linkers.is_empty());
    assert_eq!(cargo.target_dir, "");
    assert_eq!(cargo.build_args(), texts(&["build", "--release", "--bin", "foo"]));
}

#[test]
fn build_environment_asks_for_the_logs() {
    let env = Cargo::build_env();
    let pairs: Vec<(&str, &str)> = env.iter().map(|(k, v)| (k.as_str(), v.as_str())).collect();
    assert_eq!(
        pairs,
        vec![
            ("CARGO_TERM_COLOR", "always"),
            ("RUSTC_LOG", "rustc_codegen_ssa::back::link=info"),
            ("CARGO_LOG", "cargo::core::compiler::context::compilation_files=debug"),
            ("RUSTFLAGS", "--emit=llvm-ir -Cdebuginfo=0 -Csave-temps"),
        ]
    );
}

#[test]
fn lines_of_the_stream_are_told_apart() {
    assert_eq!(classify(LINK_LINE), LogLine::LinkInfo);
    assert_eq!(
        classify("DEBUG cargo::core::compiler::context::compilation_files] Target filenames: []"),
        LogLine::CompilationFiles
    );
    assert_eq!(classify("   Compiling foo v0.1.0"), LogLine::Diagnostic);
    assert_eq!(classify(""), LogLine::Blank);
}

#[test]
fn record_linkers_takes_the_log_in() {
    let mut cargo = Cargo::with_args(Vec::new());
    cargo.record_linkers(texts(&[LINK_LINE]), &Vec::new()).unwrap();
    assert_eq!(cargo.linkers.len(), 1);
    let bad = cargo.record_linkers(texts(&["INFO libcompiler_builtins"]), &Vec::new());
    assert!(matches!(bad, Err(Error::MissingLinkerProgram)));
    assert_eq!(cargo.linkers.len(), 1);
}

#[test]
fn record_target_dir_takes_the_files_in() {
    let mut cargo = Cargo::with_args(Vec::new());
    cargo.record_target_dir(vec![file(Some("/ws/target/debug/foo"))]).unwrap();
    assert_eq!(cargo.target_dir, "/ws/target/debug");
    let bad = cargo.record_target_dir(Vec::new());
    assert!(matches!(bad, Err(Error::TargetDirectory)));
    assert_eq!(cargo.target_dir, "/ws/target/debug");
}

#[test]
fn target_dir_below_target() {
    let files = vec![file(Some("/ws/target/debug/foo")), file(None), file(Some("/ws/target/debug/bar"))];
    assert_eq!(target_dir(files).unwrap(), "/ws/target/debug");
}

#[test]
fn target_dir_below_a_triple() {
    let files = vec![file(Some("/ws/target/x86_64-unknown-linux-gnu/release/foo"))];
    assert_eq!(target_dir(files).unwrap(), "/ws/target/x86_64-unknown-linux-gnu/release");
}

#[test]
fn target_dir_skips_the_examples_directory() {
    let files = vec![
        file(Some("/ws/target/debug/examples/demo")),
        file(Some("/ws/target/debug/foo")),
    ];
    assert_eq!(target_dir(files).unwrap(), "/ws/target/debug");
}

#[test]
fn target_dir_passes_over_build_scripts() {
    let files = vec![
        file(Some("/elsewhere/release/build/foo-abc/build-script-build")),
        file(Some("/ws/target/debug/foo")),
    ];
    assert_eq!(target_dir(files).unwrap(), "/ws/target/debug");
}

#[test]
fn a_list_without_a_link_to_ask_is_an_error() {
    assert!(matches!(find_target_dir(Vec::new()), Err(Error::TargetDirectory)));
    assert!(matches!(find_target_dir(vec![file(None)]), Err(Error::TargetDirectory)));
    assert!(matches!(
        find_target_dir(vec![file(Some("/ws/target/debug/build/x/build-script-build"))]),
        Err(Error::TargetDirectory)
    ));
}

#[test]
fn a_list_with_a_link_to_ask_is_resolved() {
    assert_eq!(
        find_target_dir(vec![file(None), file(Some("/ws/target/debug/foo"))]).unwrap(),
        "/ws/target/debug"
    );
    assert!(matches!(
        find_target_dir(vec![file(Some("/ws/target/debug/foo")), file(Some("/ws/target/release/foo"))]),
        Err(Error::TargetDirectory)
    ));
}

#[test]
fn links_to_ask_are_told_from_build_scripts() {
    assert!(!has_link(&Vec::new()));
    assert!(!has_link(&vec![file(None)]));
    assert!(!has_link(&vec![file(Some("/ws/target/debug/build/x/build-script-build"))]));
    assert!(has_link(&vec![file(None), file(Some("/ws/target/debug/foo"))]));
    assert!(has_link(&vec![file(Some("/"))]));
}

#[test]
fn target_dir_fails_on_two_build_modes() {
    let files = vec![file(Some("/ws/target/debug/foo")), file(Some("/ws/target/release/foo"))];
    assert!(matches!(target_dir(files), Err(Error::TargetDirectory)));
}

#[test]
fn target_dir_fails_on_two_directories() {
    let files = vec![file(Some("/a/target/debug/foo")), file(Some("/b/target/debug/foo"))];
    assert!(matches!(target_dir(files), Err(Error::TargetDirectory)));
    let files = vec![
        file(Some("/ws/target/debug/foo")),
        file(Some("/ws/target/x86_64-unknown-linux-gnu/debug/foo")),
    ];
    assert!(matches!(target_dir(files), Err(Error::TargetDirectory)));
    let files = vec![
        file(Some("/ws/target/aarch64-apple-darwin/debug/foo")),
        file(Some("/ws/target/x86_64-unknown-linux-gnu/debug/foo")),
    ];
    assert!(matches!(target_dir(files), Err(Error::TargetDirectory)));
}

#[test]
fn target_dir_fails_on_a_link_too_short() {
    match target_dir(vec![file(Some("foo"))]) {
        Err(Error::FileName(p)) => assert_eq!(p, ""),
        other => panic!("unexpected {:?}", other),
    }
    match target_dir(vec![file(Some("/"))]) {
        Err(Error::FileName(p)) => assert_eq!(p, "/"),
        other => panic!("unexpected {:?}", other),
    }
}

#[test]
fn target_filenames_frames_the_record() {
    let line = "[2022-07-01T10:00:00Z DEBUG cargo::core::compiler::context::compilation_files] Target filenames: [OutputFile { path: \"/ws/target/debug/deps/foo-abc\", hardlink: Some(\"/ws/target/debug/foo\"), export_path: None, flavor: Normal }]";
    assert_eq!(
        target_filenames(line).unwrap(),
        "[OutputFile ( path: \"/ws/target/debug/deps/foo-abc\", hardlink: Some(\"/ws/target/debug/foo\"), export_path: None, flavor: Normal )]"
    );
}

#[test]
fn target_filenames_takes_the_second_piece_only() {
    assert_eq!(target_filenames("[a] Target filenames: [b] [c]").unwrap(), "[b]");
    assert_eq!(target_filenames("[a]rest without end").unwrap(), "rest without end");
    assert_eq!(target_filenames("x]{y}").unwrap(), "(y)");
}

#[test]
fn target_filenames_missing_is_an_error() {
    for line in ["", "no bracket", "[only one]", "]"] {
        match target_filenames(line) {
            Err(Error::MissingTargetFilenames(l)) => assert_eq!(l, line),
            other => panic!("unexpected {:?}", other),
        }
    }
}

#[test]
fn output_file_records_of_all_lines() {
    let lines = texts(&["[a] Target filenames: [x]", "[b] Target filenames: [{y}]"]);
    assert_eq!(output_file_records(&lines).unwrap(), texts(&["[x]", "[(y)]"]));
    let lines = texts(&["[a] Target filenames: [x]", "bad", "[also bad]"]);
    match output_file_records(&lines) {
        Err(Error::MissingTargetFilenames(l)) => assert_eq!(l, "bad"),
        other => panic!("unexpected {:?}", other),
    }
}
