use cargo_compiler_interrupts::cargo::{Linker, LinkerArgs};
use cargo_compiler_interrupts::error::Error;
use cargo_compiler_interrupts::link::{
    archive_plan, dependency_archive, instrumented_object, integrated_path, link_event,
    links_to_run, member_listing_args, next_archive_step, plain_member, rewrite_linker, stale_link,
    ArchiveStep,
    substitute_objects,
};
use cargo_compiler_interrupts::pipeline::State;

fn texts(all: &[&str]) -> Vec<String> {
    all.iter().map(|s| String::from(*s)).collect()
}

fn linker(output: &str) -> Linker {
    Linker {
        program: String::from("cc"),
        args: LinkerArgs {
            input_files: texts(&["/t/deps/foo-0a.foo.0.rcgu.o", "/t/deps/foo-0a.alloc.rcgu.o"]),
            output_file: String::from(output),
            rlib_files: texts(&["/t/deps/libdep-0d.rlib"]),
            library_dirs: texts(&["/t/deps"]),
            flags: texts(&["-m64"]),
        },
        command: texts(&[
            "-m64",
            "/t/deps/foo-0a.foo.0.rcgu.o",
            "-L",
            "/t/deps",
            "/t/deps/libdep-0d.rlib",
            "/t/deps/foo-0a.alloc.rcgu.o",
            "-o",
            output,
        ]),
    }
}

#[test]
fn a_link_is_stale_with_its_crate() {
    assert!(stale_link(&linker("/t/deps/foo-0a"), &texts(&["bar", "foo"])));
    assert!(!stale_link(&linker("/t/deps/foo-0a"), &texts(&["bar"])));
    assert!(!stale_link(&linker("/t/deps/foo-0a"), &Vec::new()));
    assert!(!stale_link(&linker(""), &texts(&[""])));
}

#[test]
fn a_crate_whose_name_begins_another_is_not_mistaken() {
    assert!(!stale_link(&linker("/t/deps/foobar-0a"), &texts(&["foo"])));
    assert!(!stale_link(&linker("/t/deps/foo-0a"), &texts(&["foobar"])));
}

#[test]
fn fresh_links_are_left_out() {
    let linkers = vec![linker("/t/deps/foo-0a"), linker("/t/deps/bar-0b"), linker("/t/deps/foo-1c")];
    assert_eq!(links_to_run(&linkers, &texts(&["foo"])), vec![0, 2]);
    assert_eq!(links_to_run(&linkers, &texts(&["bar"])), vec![1]);
    assert!(links_to_run(&linkers, &Vec::new()).is_empty());
    assert!(links_to_run(&Vec::new(), &texts(&["foo"])).is_empty());
}

#[test]
fn an_object_gives_way_to_its_counterpart() {
    assert_eq!(
        instrumented_object("/t/deps/foo-0a.foo.0.rcgu.o", "main\n_start\n").unwrap(),
        "/t/deps/foo-0a.foo.0.rcgu-ci.o"
    );
}

#[test]
fn the_allocator_shim_stays() {
    assert_eq!(
        instrumented_object("/t/deps/foo-0a.alloc.rcgu.o", "__rust_alloc\n__rust_dealloc\n").unwrap(),
        "/t/deps/foo-0a.alloc.rcgu.o"
    );
}

#[test]
fn an_object_without_a_name_is_an_error() {
    match instrumented_object("/", "") {
        Err(Error::FileStem(p)) => assert_eq!(p, "/"),
        other => panic!("unexpected {:?}", other),
    }
    assert_eq!(instrumented_object("/", "__rust_alloc").unwrap(), "/");
}

#[test]
fn objects_are_substituted_in_place() {
    let mut l = linker("/t/deps/foo-0a");
    substitute_objects(&mut l.args, &texts(&["main\n", "__rust_alloc\n"])).unwrap();
    assert_eq!(
        l.args.input_files,
        texts(&["/t/deps/foo-0a.foo.0.rcgu-ci.o", "/t/deps/foo-0a.alloc.rcgu.o"])
    );
    assert_eq!(l.args.output_file, "/t/deps/foo-0a");
    assert_eq!(l.args.rlib_files, texts(&["/t/deps/libdep-0d.rlib"]));
    assert_eq!(l.args.library_dirs, texts(&["/t/deps"]));
    assert_eq!(l.args.flags, texts(&["-m64"]));
    assert_eq!(
        l.args.build(),
        texts(&[
            "/t/deps/foo-0a.foo.0.rcgu-ci.o",
            "/t/deps/foo-0a.alloc.rcgu.o",
            "-o",
            "/t/deps/foo-0a",
            "/t/deps/libdep-0d.rlib",
            "-L",
            "/t/deps",
            "-m64",
        ])
    );
}

#[test]
fn a_failed_substitution_changes_nothing() {
    let mut l = linker("/t/deps/foo-0a");
    l.args.input_files = texts(&["/t/deps/a.o", "/", "/t/deps/b.o"]);
    match substitute_objects(&mut l.args, &texts(&["", "", ""])) {
        Err(Error::FileStem(p)) => assert_eq!(p, "/"),
        other => panic!("unexpected {:?}", other),
    }
    assert_eq!(l.args.input_files, texts(&["/t/deps/a.o", "/", "/t/deps/b.o"]));
}

#[test]
fn dependency_archives_are_known_by_their_path() {
    assert!(dependency_archive("/t/debug/deps/libdep-0d.rlib"));
    assert!(!dependency_archive("/usr/lib/rustlib/libstd-1.rlib"));
    assert!(!dependency_archive("/t/debug/deps/foo.o"));
}

#[test]
fn the_member_to_replace_is_the_first_plain_codegen_unit() {
    let listing = "lib.rmeta\ndep-0d.dep.0.rcgu.o\ndep-0d.dep.1.rcgu.o\n";
    assert_eq!(plain_member(listing), Some(String::from("dep-0d.dep.0.rcgu.o")));
    assert_eq!(
        plain_member("dep-0d.dep.0.rcgu-ci.o\ndep-0d.dep.1.rcgu.o"),
        Some(String::from("dep-0d.dep.1.rcgu.o"))
    );
    assert_eq!(plain_member("lib.rmeta\ndep-0d.dep.0.rcgu-ci.o\n"), None);
    assert_eq!(plain_member(""), None);
}

#[test]
fn an_archive_is_patched_by_insertion_then_deletion() {
    let listing = "lib.rmeta\ndep-0d.dep.0.rcgu.o\n";
    let plan = archive_plan("/t/deps/libdep-0d.rlib", listing, "/t/deps").unwrap().unwrap();
    assert_eq!(
        plan.insert,
        texts(&[
            "-rb",
            "/t/deps/dep-0d.dep.0.rcgu.o",
            "/t/deps/libdep-0d.rlib",
            "/t/deps/dep-0d.dep.0.rcgu-ci.o",
        ])
    );
    assert_eq!(
        plan.delete,
        texts(&["-d", "/t/deps/libdep-0d.rlib", "/t/deps/dep-0d.dep.0.rcgu.o"])
    );
}

#[test]
fn an_archive_without_plain_member_is_left_alone() {
    assert!(archive_plan("/t/deps/libdep-0d.rlib", "lib.rmeta\n", "/t/deps").unwrap().is_none());
}

#[test]
fn link_events_name_the_crate_of_the_output() {
    let event = link_event(&linker("/t/deps/my_bin-0a"), false);
    assert_eq!(event.crate_name, "my_bin");
    assert!(matches!(event.state, State::Ld(false)));
    let event = link_event(&linker("/t/deps/my_bin-0a"), true);
    assert!(matches!(event.state, State::Ld(true)));
}

#[test]
fn the_integrated_binary_is_put_beside_the_directory() {
    assert_eq!(integrated_path("/t/debug/deps/my_bin-0a1b").unwrap(), "/t/debug/my-bin-ci");
    assert_eq!(integrated_path("/t/debug/examples/demo-0a1b").unwrap(), "/t/debug/demo-ci");
    assert_eq!(integrated_path("foo-0a").unwrap(), "foo-ci");
}

#[test]
fn an_integrated_binary_needs_a_directory() {
    match integrated_path("/") {
        Err(Error::ParentDir(p)) => assert_eq!(p, "/"),
        other => panic!("unexpected {:?}", other),
    }
}

#[test]
fn a_rewritten_linker_keeps_the_order_of_its_arguments() {
    let mut l = linker("/t/deps/foo-0a");
    rewrite_linker(&mut l, &texts(&["main\n", "__rust_alloc\n"])).unwrap();
    assert_eq!(l.program, "cc");
    assert_eq!(
        l.command,
        texts(&[
            "-m64",
            "/t/deps/foo-0a.foo.0.rcgu-ci.o",
            "-L",
            "/t/deps",
            "/t/deps/libdep-0d.rlib",
            "/t/deps/foo-0a.alloc.rcgu.o",
            "-o",
            "/t/deps/foo-0a",
        ])
    );
    assert_eq!(
        l.args.input_files,
        texts(&["/t/deps/foo-0a.foo.0.rcgu-ci.o", "/t/deps/foo-0a.alloc.rcgu.o"])
    );
}

#[test]
fn a_linker_that_cannot_be_rewritten_stays_as_it_is() {
    let mut l = linker("/t/deps/foo-0a");
    l.args.input_files = texts(&["/t/deps/foo-0a.foo.0.rcgu.o", "/"]);
    let before = l.command.clone();
    assert!(matches!(rewrite_linker(&mut l, &texts(&["", ""])), Err(Error::FileStem(_))));
    assert_eq!(l.command, before);
    assert_eq!(l.args.input_files, texts(&["/t/deps/foo-0a.foo.0.rcgu.o", "/"]));
}

#[test]
fn the_members_of_an_archive_are_asked_for() {
    assert_eq!(member_listing_args("/t/deps/libdep-0d.rlib"), texts(&["-t", "/t/deps/libdep-0d.rlib"]));
}

#[test]
fn the_deletion_comes_after_a_good_insertion() {
    let listing = "lib.rmeta\ndep-0d.dep.0.rcgu.o\n";
    let plan = archive_plan("/t/deps/libdep-0d.rlib", listing, "/t/deps").unwrap().unwrap();
    let (step, args) = next_archive_step(&plan, 0, false).unwrap();
    assert_eq!(step, ArchiveStep::Insert);
    assert_eq!(args, plan.insert);
    let (step, args) = next_archive_step(&plan, 1, false).unwrap();
    assert_eq!(step, ArchiveStep::Delete);
    assert_eq!(args, plan.delete);
    assert!(next_archive_step(&plan, 2, false).is_none());
    assert!(next_archive_step(&plan, 3, false).is_none());
}

#[test]
fn a_failed_insertion_withholds_the_deletion() {
    let listing = "lib.rmeta\ndep-0d.dep.0.rcgu.o\n";
    let plan = archive_plan("/t/deps/libdep-0d.rlib", listing, "/t/deps").unwrap().unwrap();
    assert!(next_archive_step(&plan, 0, true).is_none());
    assert!(next_archive_step(&plan, 1, true).is_none());
    assert!(next_archive_step(&plan, 2, true).is_none());
}
