use cargo_compiler_interrupts::error::Error;
use cargo_compiler_interrupts::paths::{join_path, with_extension, with_file_name, PathExt};
use std::path::Path;

const SAMPLES: [&str; 40] = [
    "",
    "/",
    "//",
    ".",
    "..",
    "./",
    "./.",
    "/.",
    "/..",
    "a",
    "a/",
    "a//",
    "a/.",
    "a/./",
    "a/..",
    "a/b",
    "a//b",
    "a/./b",
    "a/b/",
    "a/b/.",
    "/a",
    "/a/b",
    "/a/b/",
    "./a",
    "./a/b.c",
    "../a",
    ".a",
    ".a.b",
    "a.",
    "a.b",
    "a.b.c",
    "dir/foo.tar.gz",
    "dir.d/foo",
    "/target/debug/deps/foo-0a1b2c3d.foo.7rcbfp3g-cgu.0.rcgu.ll",
    "target/debug/examples/demo",
    "a/b/..",
    "a/.b",
    "a/b.",
    "...",
    "a/.../b",
];

#[test]
fn file_name_agrees_with_std() {
    for s in SAMPLES {
        let want = Path::new(s).file_name().map(|n| n.to_str().unwrap().to_owned());
        assert_eq!(s.file_name().ok(), want, "file_name of {:?}", s);
    }
}

#[test]
fn file_stem_agrees_with_std() {
    for s in SAMPLES {
        let want = Path::new(s).file_stem().map(|n| n.to_str().unwrap().to_owned());
        assert_eq!(s.file_stem().ok(), want, "file_stem of {:?}", s);
    }
}

#[test]
fn extension_agrees_with_std() {
    for s in SAMPLES {
        let want = Path::new(s).extension().map(|n| n.to_str().unwrap().to_owned());
        assert_eq!(s.extension().ok(), want, "extension of {:?}", s);
    }
}

#[test]
fn parent_agrees_with_std() {
    for s in SAMPLES {
        let want = Path::new(s).parent().map(|p| p.to_str().unwrap().to_owned());
        assert_eq!(s.parent().ok(), want, "parent of {:?}", s);
    }
}

#[test]
fn join_agrees_with_std() {
    for a in SAMPLES {
        for b in SAMPLES {
            let want = Path::new(a).join(b).to_str().unwrap().to_owned();
            assert_eq!(join_path(a, b), want, "join of {:?} and {:?}", a, b);
        }
    }
}

#[test]
fn with_file_name_agrees_with_std() {
    for a in SAMPLES {
        for b in ["x", "x.y", "foo-ci.ll"] {
            let want = Path::new(a).with_file_name(b).to_str().unwrap().to_owned();
            assert_eq!(with_file_name(a, b), want, "with_file_name of {:?} and {:?}", a, b);
        }
    }
}

#[test]
fn with_extension_agrees_with_std() {
    for a in SAMPLES {
        for b in ["o", "", "tar.gz"] {
            let want = Path::new(a).with_extension(b).to_str().unwrap().to_owned();
            assert_eq!(with_extension(a, b), want, "with_extension of {:?} and {:?}", a, b);
        }
    }
}

#[test]
fn file_name_of_plain_paths() {
    assert_eq!("/usr/lib/libfoo.so".file_name().unwrap(), "libfoo.so");
    assert_eq!("libfoo.so".file_name().unwrap(), "libfoo.so");
    assert_eq!("a/b/".file_name().unwrap(), "b");
}

#[test]
fn file_name_missing_is_an_error() {
    match "/".file_name() {
        Err(Error::FileName(p)) => assert_eq!(p, "/"),
        other => panic!("unexpected {:?}", other),
    }
    match "a/..".file_name() {
        Err(Error::FileName(p)) => assert_eq!(p, "a/.."),
        other => panic!("unexpected {:?}", other),
    }
}

#[test]
fn file_stem_and_extension() {
    assert_eq!("deps/foo-1234.rcgu.ll".file_stem().unwrap(), "foo-1234.rcgu");
    assert_eq!("deps/foo-1234.rcgu.ll".extension().unwrap(), "ll");
    assert_eq!(".hidden".file_stem().unwrap(), ".hidden");
    match ".hidden".extension() {
        Err(Error::Extension(p)) => assert_eq!(p, ".hidden"),
        other => panic!("unexpected {:?}", other),
    }
    match "..".file_stem() {
        Err(Error::FileStem(p)) => assert_eq!(p, ".."),
        other => panic!("unexpected {:?}", other),
    }
}

#[test]
fn parent_of_plain_paths() {
    assert_eq!("/target/debug/foo".parent().unwrap(), "/target/debug");
    assert_eq!("foo".parent().unwrap(), "");
    match "".parent() {
        Err(Error::ParentDir(p)) => assert_eq!(p, ""),
        other => panic!("unexpected {:?}", other),
    }
    match "/".parent() {
        Err(Error::ParentDir(p)) => assert_eq!(p, "/"),
        other => panic!("unexpected {:?}", other),
    }
}

#[test]
fn to_string_gives_the_path() {
    assert_eq!(PathExt::to_string("a/b c").unwrap(), "a/b c");
}

#[test]
fn append_suffix_with_extension() {
    assert_eq!(
        "/t/deps/foo-1234.rcgu.ll".append_suffix("ci").unwrap(),
        "/t/deps/foo-1234.rcgu-ci.ll"
    );
    assert_eq!("lib.so".append_suffix("debug").unwrap(), "lib-debug.so");
}

#[test]
fn append_suffix_without_extension() {
    assert_eq!("/t/debug/foo".append_suffix("ci").unwrap(), "/t/debug/foo-ci");
    assert_eq!("foo.".append_suffix("ci").unwrap(), "foo-ci.");
    assert_eq!(".foo".append_suffix("ci").unwrap(), ".foo-ci");
}

#[test]
fn append_suffix_without_file_name_is_an_error() {
    match "/".append_suffix("ci") {
        Err(Error::FileStem(p)) => assert_eq!(p, "/"),
        other => panic!("unexpected {:?}", other),
    }
}

#[test]
fn join_replaces_on_absolute_path() {
    assert_eq!(join_path("/a/b", "/c"), "/c");
    assert_eq!(join_path("/a/b", "c"), "/a/b/c");
    assert_eq!(join_path("/a/b/", "c"), "/a/b/c");
    assert_eq!(join_path("", "c"), "c");
}
