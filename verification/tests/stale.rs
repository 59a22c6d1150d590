use cargo_compiler_interrupts::cargo::{Linker, LinkerArgs};
use cargo_compiler_interrupts::plan::{finished_message, nothing_message, plan, scan_dir};
use cargo_compiler_interrupts::stale::{diff, snapshot, Entry, FileSnapshot};
use cargo_compiler_interrupts::units::{
    compilation_units, crate_name, ir_file, ir_files, normalize, stale_crate_names, TargetInfo,
    TargetKind,
};
use cargo_compiler_interrupts::error::Error;

fn texts(all: &[&str]) -> Vec<String> {
    all.iter().map(|s| String::from(*s)).collect()
}

fn entry(path: &str, is_file: bool, mtime: i128) -> Entry {
    Entry { path: String::from(path), is_file, mtime }
}

fn linker(output: &str) -> Linker {
    Linker {
        program: String::from("cc"),
        args: LinkerArgs {
            input_files: Vec::new(),
            output_file: String::from(output),
            rlib_files: Vec::new(),
            library_dirs: Vec::new(),
            flags: Vec::new(),
        },
        command: Vec::new(),
    }
}

#[test]
fn snapshot_keeps_plain_files() {
    let s = snapshot(&vec![entry("/d/a", true, 10), entry("/d/sub", false, 11), entry("/d/b", true, 12)]);
    assert_eq!(s.len(), 2);
    assert_eq!(s.mtime("/d/a"), Some(10));
    assert_eq!(s.mtime("/d/b"), Some(12));
    assert_eq!(s.mtime("/d/sub"), None);
}

#[test]
fn snapshot_of_a_path_met_twice_keeps_the_later_time() {
    let s = snapshot(&vec![entry("/d/a", true, 10), entry("/d/a", true, 20)]);
    assert_eq!(s.len(), 1);
    assert_eq!(s.mtime("/d/a"), Some(20));
}

#[test]
fn diff_holds_new_and_newer_files() {
    let pre = snapshot(&vec![entry("/d/same", true, 10), entry("/d/newer", true, 10), entry("/d/older", true, 10), entry("/d/gone", true, 10)]);
    let post = snapshot(&vec![
        entry("/d/new", true, 5),
        entry("/d/same", true, 10),
        entry("/d/newer", true, 11),
        entry("/d/older", true, 9),
    ]);
    assert_eq!(diff(&pre, &post), texts(&["/d/new", "/d/newer"]));
}

#[test]
fn diff_of_unchanged_snapshots_is_empty() {
    let entries = vec![entry("/d/a", true, 10), entry("/d/b", true, -3)];
    let pre = snapshot(&entries);
    let post = snapshot(&entries);
    assert!(diff(&pre, &post).is_empty());
    assert!(diff(&FileSnapshot::new(), &FileSnapshot::new()).is_empty());
}

#[test]
fn diff_against_nothing_holds_everything() {
    let post = snapshot(&vec![entry("/d/b", true, 1), entry("/d/a", true, 2)]);
    assert_eq!(diff(&FileSnapshot::new(), &post), texts(&["/d/b", "/d/a"]));
}

#[test]
fn insert_records_a_time() {
    let mut s = FileSnapshot::new();
    s.insert("/d/a", 1);
    s.insert("/d/b", 2);
    s.insert("/d/a", 3);
    assert_eq!(s.len(), 2);
    assert_eq!(s.mtime("/d/a"), Some(3));
}

#[test]
fn crate_name_is_read_off_the_stem() {
    assert_eq!(crate_name("/t/debug/deps/foo-0a1b2c3d.foo.7rcbfp3g-cgu.0.rcgu.ll"), "foo");
    assert_eq!(crate_name("/t/debug/deps/my_crate-0a1b2c3d"), "my_crate");
    assert_eq!(crate_name("/t/debug/deps/libserde-abc.rlib"), "libserde");
    assert_eq!(crate_name("/t/debug/foo"), "foo");
    assert_eq!(crate_name("foo.bar-baz"), "foo");
    assert_eq!(crate_name("-x"), "");
    assert_eq!(crate_name("/"), "");
    assert_eq!(crate_name(""), "");
}

#[test]
fn ir_files_are_plain_codegen_units() {
    assert!(ir_file("/t/deps/foo-0a.foo.7r-cgu.0.rcgu.ll"));
    assert!(!ir_file("/t/deps/foo-0a.foo.7r-cgu.0.rcgu-ci.ll"));
    assert!(!ir_file("/t/deps/foo-0a.foo.7r-cgu.0.rcgu.o"));
    assert!(!ir_file("/t/deps/foo-0a.ll"));
    assert!(!ir_file("/t/rcgu/foo.ll"));
    let files = texts(&[
        "/t/deps/foo-0a.foo.0.rcgu.ll",
        "/t/deps/foo-0a.foo.0.rcgu.o",
        "/t/deps/foo-0a.d",
        "/t/deps/bar-0b.bar.0.rcgu.ll",
        "/t/deps/bar-0b.bar.0.rcgu-ci.ll",
    ]);
    assert_eq!(ir_files(&files), texts(&["/t/deps/foo-0a.foo.0.rcgu.ll", "/t/deps/bar-0b.bar.0.rcgu.ll"]));
}

#[test]
fn compilation_units_are_the_binary_targets() {
    let targets = vec![
        TargetInfo { name: String::from("my-lib"), kinds: texts(&["lib"]), crate_types: texts(&["lib"]) },
        TargetInfo { name: String::from("my-bin"), kinds: texts(&["bin"]), crate_types: texts(&["bin"]) },
        TargetInfo { name: String::from("demo"), kinds: texts(&["example"]), crate_types: texts(&["bin"]) },
    ];
    let units = compilation_units(&targets).unwrap();
    assert_eq!(units.len(), 2);
    assert_eq!(units[0].name, "my-bin");
    assert_eq!(units[0].ident, "my_bin");
    assert_eq!(units[0].kind, TargetKind::Binary);
    assert_eq!(units[1].name, "demo");
    assert_eq!(units[1].ident, "demo");
    assert_eq!(units[1].kind, TargetKind::Example);
    assert_eq!(normalize("a-b-c"), "a_b_c");
}

#[test]
fn a_package_without_binaries_is_an_error() {
    let targets = vec![TargetInfo {
        name: String::from("my-lib"),
        kinds: texts(&["lib"]),
        crate_types: texts(&["lib"]),
    }];
    assert!(matches!(compilation_units(&targets), Err(Error::BinaryNotFound)));
    assert!(matches!(compilation_units(&Vec::new()), Err(Error::BinaryNotFound)));
}

#[test]
fn stale_crates_are_binary_crates_with_stale_files() {
    let stale = texts(&[
        "/t/deps/foo-0a.foo.0.rcgu.ll",
        "/t/deps/foo-0a.foo.1.rcgu.ll",
        "/t/deps/serde-0c.serde.0.rcgu.ll",
        "/t/deps/bar-0b",
    ]);
    let names = texts(&["foo", "bar", "baz"]);
    assert_eq!(stale_crate_names(&stale, &names), texts(&["foo", "bar"]));
    assert!(stale_crate_names(&Vec::new(), &names).is_empty());
}

#[test]
fn nothing_stale_nothing_to_do() {
    let linkers = vec![linker("/t/deps/foo-0a")];
    assert!(plan(&Vec::new(), &texts(&["foo"]), &linkers).is_none());
    assert_eq!(nothing_message(), "nothing to integrate, all fresh");
}

#[test]
fn a_plan_holds_ir_files_and_stale_links() {
    let stale = texts(&["/t/deps/foo-0a.foo.0.rcgu.ll", "/t/deps/foo-0a", "/t/deps/dep-0d.dep.0.rcgu.ll"]);
    let linkers = vec![linker("/t/deps/bar-0b"), linker("/t/deps/foo-0a"), linker("")];
    let p = plan(&stale, &texts(&["foo", "bar"]), &linkers).unwrap();
    assert_eq!(p.ir_files, texts(&["/t/deps/foo-0a.foo.0.rcgu.ll", "/t/deps/dep-0d.dep.0.rcgu.ll"]));
    assert_eq!(p.stale_crates, texts(&["foo"]));
    assert_eq!(p.links, vec![1]);
}

#[test]
fn finished_message_names_the_count() {
    assert_eq!(finished_message(2, "1m 05s"), "integrated 2 target(s) in 1m 05s");
}

#[test]
fn scan_dir_hands_stem_and_extension_to_the_predicate() {
    let entries = texts(&["/d/a.ll", "/d/b.o", "/d/c", "/d/.hidden", "/"]);
    let picked = scan_dir(&entries, |_stem, ext| ext == Some(String::from("ll")));
    assert_eq!(picked, texts(&["/d/a.ll"]));
    let picked = scan_dir(&entries, |stem, _ext| stem.is_none());
    assert_eq!(picked, texts(&["/"]));
    let picked = scan_dir(&entries, |stem, ext| stem == Some(String::from(".hidden")) && ext.is_none());
    assert_eq!(picked, texts(&["/d/.hidden"]));
}
