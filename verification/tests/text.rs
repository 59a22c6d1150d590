use cargo_compiler_interrupts::format::{decimal_string, join};
use cargo_compiler_interrupts::text::{catenate, chars_of, contains, find, str_eq, string_from};
use cargo_compiler_interrupts::words::{
    remove_char, split_lines, split_words, strip_prefix, swap_char, trim,
};

const TEXTS: [&str; 16] = [
    "",
    " ",
    "a",
    " a ",
    "a b",
    "  a \t b\n",
    "a\nb",
    "a\r\nb\r\n",
    "a\rb",
    "a\r",
    "\n",
    "\n\n",
    "line one\nline two\n\nline four",
    "\u{a0}x\u{2003}",
    "tab\tsep\x0cform",
    "\u{85}héllo wörld\u{3000}",
];

fn chars(s: &str) -> Vec<char> {
    s.chars().collect()
}

fn text(v: &Vec<char>) -> String {
    v.iter().collect()
}

#[test]
fn chars_round_trip() {
    for s in TEXTS {
        assert_eq!(chars_of(s), chars(s));
        assert_eq!(string_from(&chars_of(s)), s);
    }
}

#[test]
fn split_words_agrees_with_std() {
    for s in TEXTS {
        let want: Vec<String> = s.split_ascii_whitespace().map(|w| w.to_string()).collect();
        assert_eq!(split_words(s), want, "words of {:?}", s);
    }
}

#[test]
fn split_words_keeps_other_white_space() {
    assert_eq!(split_words("a\u{a0}b c"), vec!["a\u{a0}b".to_string(), "c".to_string()]);
}

#[test]
fn split_lines_agrees_with_std() {
    for s in TEXTS {
        let want: Vec<String> = s.lines().map(|w| w.to_string()).collect();
        assert_eq!(split_lines(s), want, "lines of {:?}", s);
    }
}

#[test]
fn trim_agrees_with_std() {
    for s in TEXTS {
        assert_eq!(text(&trim(&chars(s))), s.trim(), "trim of {:?}", s);
    }
}

#[test]
fn contains_agrees_with_std() {
    for hay in TEXTS {
        for needle in ["", "a", " ", "ab", "line", "\n\n", "wör", "b\r"] {
            assert_eq!(contains(hay, needle), hay.contains(needle), "{:?} in {:?}", needle, hay);
        }
    }
}

#[test]
fn find_gives_the_first_place() {
    assert_eq!(find(&chars("abcabc"), &chars("bc")), Some(1));
    assert_eq!(find(&chars("abcabc"), &chars("")), Some(0));
    assert_eq!(find(&chars("abc"), &chars("abcd")), None);
    assert_eq!(find(&chars("abc"), &chars("c")), Some(2));
    assert_eq!(find(&chars(""), &chars("")), Some(0));
}

#[test]
fn remove_char_takes_every_one_out() {
    assert_eq!(text(&remove_char(&chars("\"cc\" \"-m64\" \"a b\""), '"')), "cc -m64 a b");
    assert_eq!(text(&remove_char(&chars(""), '"')), "");
}

#[test]
fn swap_char_turns_every_one() {
    assert_eq!(text(&swap_char(&chars("my-own-crate"), '-', '_')), "my_own_crate");
    assert_eq!(text(&swap_char(&chars("{a}{b}"), '{', '(')), "(a}(b}");
}

#[test]
fn strip_prefix_agrees_with_std() {
    for s in ["LLVM version: 14.0.6", "LLVM version:", "host: x", "", "LLVM version: "] {
        let want = s.strip_prefix("LLVM version: ").map(|r| r.to_string());
        let got = strip_prefix(&chars(s), &chars("LLVM version: ")).map(|r| text(&r));
        assert_eq!(got, want, "strip of {:?}", s);
    }
}

#[test]
fn decimal_of_numbers() {
    for n in [0u64, 1, 9, 10, 11, 99, 100, 1234567890, u64::MAX] {
        assert_eq!(decimal_string(n), n.to_string());
    }
}

#[test]
fn join_puts_the_separator_between() {
    let parts = vec!["a".to_string(), "b".to_string(), "c".to_string()];
    assert_eq!(join(&parts, ", "), "a, b, c");
    assert_eq!(join(&vec!["a".to_string()], ", "), "a");
    assert_eq!(join(&Vec::new(), ", "), "");
    assert_eq!(join(&vec!["".to_string(), "".to_string()], "-"), "-");
}

#[test]
fn catenate_and_equality() {
    assert_eq!(catenate("ab", "cd"), "abcd");
    assert!(str_eq("abc", "abc"));
    assert!(!str_eq("abc", "abd"));
    assert!(!str_eq("abc", "ab"));
}
