use cargo_compiler_interrupts::error::Error;
use cargo_compiler_interrupts::llvm::{
    check_supported, decide_suffix, rustc_llvm_version, toolchain, version_field, LlvmToolchain,
    LlvmUtility, LLVM_MAX_MAJOR, LLVM_MIN_MAJOR,
};
use cargo_compiler_interrupts::version::Version;

const REPORT: &str = "rustc 1.62.0 (a8314ef7d 2022-06-27)\nbinary: rustc\ncommit-hash: a8314ef7d0ec7b75c336af2c9857bfaf43002bfc\ncommit-date: 2022-06-27\nhost: x86_64-unknown-linux-gnu\nrelease: 1.62.0\nLLVM version: 14.0.5\n";

const VERSIONS: [&str; 18] = [
    "0.0.0",
    "8.9.9",
    "9.0.0-rc.1",
    "9.0.0",
    "9.0.0+build",
    "9.0.1-alpha",
    "9.1.0",
    "13.0.1",
    "14.0.0",
    "14.0.6",
    "14.0.6-rc1",
    "14.1.0",
    "14.99.99+meta.1",
    "15.0.0-alpha.1",
    "15.0.0-alpha.1+b",
    "15.0.0",
    "15.0.1-rc1",
    "16.0.0",
];

fn version(text: &str) -> Version {
    Version::parse(text).unwrap()
}

#[test]
fn parse_reads_the_numbers() {
    let v = version("14.0.6");
    assert_eq!((v.major, v.minor, v.patch), (14, 0, 6));
    assert_eq!(v.pre, "");
    assert_eq!(v.build, "");
}

#[test]
fn parse_reads_tag_and_metadata() {
    let v = version("1.2.3-alpha.1+build.5");
    assert_eq!((v.major, v.minor, v.patch), (1, 2, 3));
    assert_eq!(v.pre, "alpha.1");
    assert_eq!(v.build, "build.5");
}

#[test]
fn parse_refuses_what_is_no_version() {
    for text in ["", "14", "14.0", "1.q.r", "1.2.3 ", " 1.2.3", "01.2.3", "1.2.3-"] {
        match Version::parse(text) {
            Err(Error::InvalidVersion(t)) => assert_eq!(t, text),
            other => panic!("unexpected {:?}", other),
        }
    }
}

#[test]
fn parse_agrees_with_semver() {
    for text in VERSIONS {
        let v = version(text);
        let s = semver::Version::parse(text).unwrap();
        assert_eq!((v.major, v.minor, v.patch), (s.major, s.minor, s.patch));
        assert_eq!(v.pre, s.pre.as_str());
        assert_eq!(v.build, s.build.as_str());
    }
}

#[test]
fn text_agrees_with_semver() {
    for text in VERSIONS {
        assert_eq!(version(text).text(), format!("{}", semver::Version::parse(text).unwrap()));
        assert_eq!(version(text).text(), text);
    }
}

#[test]
fn new_is_a_release() {
    let v = Version::new(9, 0, 0);
    assert_eq!(v.text(), "9.0.0");
    assert_eq!(v.duplicate().text(), "9.0.0");
}

#[test]
fn precedes_release_agrees_with_semver_order() {
    for text in VERSIONS {
        let s = semver::Version::parse(text).unwrap();
        for major in [0u64, 9, 14, 15, 16] {
            assert_eq!(
                version(text).precedes_release(major),
                s < semver::Version::new(major, 0, 0),
                "{} before {}.0.0",
                text,
                major
            );
        }
    }
}

#[test]
fn same_minor_agrees_with_semver_comparator() {
    for wanted in VERSIONS {
        let w = semver::Version::parse(wanted).unwrap();
        let comparator = semver::Comparator {
            op: semver::Op::Exact,
            major: w.major,
            minor: Some(w.minor),
            patch: None,
            pre: semver::Prerelease::EMPTY,
        };
        for found in VERSIONS {
            let f = semver::Version::parse(found).unwrap();
            assert_eq!(
                version(found).same_minor(&version(wanted)),
                comparator.matches(&f),
                "{} against {}",
                found,
                wanted
            );
        }
    }
}

#[test]
fn version_field_is_found_and_trimmed() {
    assert_eq!(version_field(REPORT).unwrap(), "14.0.5");
    assert_eq!(version_field("LLVM version:   9.0.1  \r\nhost: x").unwrap(), "9.0.1");
    assert_eq!(version_field("LLVM version: 1\nLLVM version: 2").unwrap(), "1");
}

#[test]
fn version_field_missing() {
    assert!(matches!(version_field("rustc 1.62.0\nhost: x"), Err(Error::MissingLlvmVersion)));
    assert!(matches!(version_field(""), Err(Error::MissingLlvmVersion)));
    assert!(matches!(version_field(" LLVM version: 14.0.0"), Err(Error::MissingLlvmVersion)));
}

#[test]
fn rustc_llvm_version_of_a_report() {
    let v = rustc_llvm_version(REPORT).unwrap();
    assert_eq!(v.text(), "14.0.5");
}

#[test]
fn rustc_llvm_version_refuses_unsupported() {
    for (report, text) in [
        ("LLVM version: 8.0.1\n", "8.0.1"),
        ("LLVM version: 15.0.0\n", "15.0.0"),
        ("LLVM version: 16.0.2\n", "16.0.2"),
        ("LLVM version: 9.0.0-rc1\n", "9.0.0-rc1"),
    ] {
        match rustc_llvm_version(report) {
            Err(Error::LLVMNotSupported(v)) => assert_eq!(v.text(), text),
            other => panic!("unexpected {:?}", other),
        }
    }
}

#[test]
fn rustc_llvm_version_refuses_garbage() {
    match rustc_llvm_version("LLVM version: fourteen\n") {
        Err(Error::InvalidVersion(t)) => assert_eq!(t, "fourteen"),
        other => panic!("unexpected {:?}", other),
    }
    assert!(matches!(rustc_llvm_version("nothing here"), Err(Error::MissingLlvmVersion)));
}

#[test]
fn supported_range_has_its_ends() {
    assert_eq!(LLVM_MIN_MAJOR, 9);
    assert_eq!(LLVM_MAX_MAJOR, 15);
    assert!(check_supported(version("9.0.0")).is_ok());
    assert!(check_supported(version("14.99.0")).is_ok());
    assert!(check_supported(version("15.0.0-rc1")).is_ok());
    assert!(matches!(check_supported(version("15.0.0")), Err(Error::LLVMNotSupported(_))));
    assert!(matches!(check_supported(version("8.99.99")), Err(Error::LLVMNotSupported(_))));
}

#[test]
fn bare_name_matches_no_suffix() {
    let t = toolchain(version("14.0.5"), Some("14.0.6\n".to_string()), None).unwrap();
    assert!(!t.suffix);
    assert_eq!(t.version.text(), "14.0.5");
    let t = toolchain(
        version("14.0.5"),
        Some("14.0.0\n".to_string()),
        Some("14.0.6\n".to_string()),
    )
    .unwrap();
    assert!(!t.suffix);
}

#[test]
fn suffixed_name_matches_suffix_needed() {
    let t = toolchain(
        version("14.0.5"),
        Some("13.0.1\n".to_string()),
        Some("14.0.0\n".to_string()),
    )
    .unwrap();
    assert!(t.suffix);
    let t = toolchain(version("14.0.5"), None, Some(" 14.0.6 ".to_string())).unwrap();
    assert!(t.suffix);
}

#[test]
fn neither_matches_names_both_versions() {
    match toolchain(version("14.0.5"), Some("13.0.1\n".to_string()), Some("12.0.0\n".to_string())) {
        Err(Error::LLVMVersionNotMatch(a, b)) => {
            assert_eq!(a.text(), "14.0.5");
            assert_eq!(b.text(), "13.0.1");
        }
        other => panic!("unexpected {:?}", other),
    }
    match toolchain(version("14.0.5"), Some("14.1.0".to_string()), None) {
        Err(Error::LLVMVersionNotMatch(a, b)) => {
            assert_eq!(a.text(), "14.0.5");
            assert_eq!(b.text(), "14.1.0");
        }
        other => panic!("unexpected {:?}", other),
    }
    match toolchain(version("14.0.5"), None, Some("13.0.0".to_string())) {
        Err(Error::LLVMVersionNotMatch(a, b)) => {
            assert_eq!(a.text(), "14.0.5");
            assert_eq!(b.text(), "13.0.0");
        }
        other => panic!("unexpected {:?}", other),
    }
}

#[test]
fn neither_resolves_toolchain_not_found() {
    assert!(matches!(toolchain(version("14.0.5"), None, None), Err(Error::LLVMNotInstalled)));
    assert!(matches!(decide_suffix(&version("14.0.5"), None, None), Err(Error::LLVMNotInstalled)));
}

#[test]
fn unreadable_answer_is_an_error() {
    match toolchain(version("14.0.5"), Some("garbage".to_string()), Some("14.0.0".to_string())) {
        Err(Error::InvalidVersion(t)) => assert_eq!(t, "garbage"),
        other => panic!("unexpected {:?}", other),
    }
    match toolchain(version("14.0.5"), Some("14.0.0".to_string()), Some("??".to_string())) {
        Err(Error::InvalidVersion(t)) => assert_eq!(t, "??"),
        other => panic!("unexpected {:?}", other),
    }
}

#[test]
fn a_pre_release_toolchain_does_not_match() {
    assert!(matches!(
        decide_suffix(&version("14.0.5"), Some(version("14.0.0-rc1")), None),
        Err(Error::LLVMVersionNotMatch(_, _))
    ));
    assert_eq!(
        decide_suffix(&version("14.0.5"), Some(version("14.0.0-rc1")), Some(version("14.0.9")))
            .unwrap(),
        true
    );
}

#[test]
fn utility_names() {
    assert_eq!(LlvmUtility::Archiver.as_str(), "llvm-ar");
    assert_eq!(LlvmUtility::Config.as_str(), "llvm-config");
    assert_eq!(LlvmUtility::Clang.as_str(), "clang");
    assert_eq!(LlvmUtility::NameMangling.as_str(), "llvm-nm");
    assert_eq!(LlvmUtility::Optimizer.as_str(), "opt");
    assert_eq!(LlvmUtility::StaticCompiler.as_str(), "llc");
}

#[test]
fn program_names_follow_the_suffix() {
    let bare = LlvmToolchain { version: version("14.0.5"), suffix: false };
    let suffixed = LlvmToolchain { version: version("14.0.5"), suffix: true };
    assert_eq!(LlvmUtility::Optimizer.program_name(&bare), "opt");
    assert_eq!(LlvmUtility::Optimizer.program_name(&suffixed), "opt-14");
    assert_eq!(LlvmUtility::Archiver.program_name(&suffixed), "llvm-ar-14");
    assert_eq!(LlvmUtility::Config.suffixed_name(9), "llvm-config-9");
}
