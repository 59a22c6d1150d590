use cargo_compiler_interrupts::pipeline::{IntegrationCx, State};
use cargo_compiler_interrupts::progress::{message, progress_len, Layout, Render, Reporter, Status};

fn texts(all: &[&str]) -> Vec<String> {
    all.iter().map(|s| String::from(*s)).collect()
}

fn event(name: &str, state: State) -> IntegrationCx {
    IntegrationCx { crate_name: String::from(name), state }
}

fn shown(all: &Vec<Render>) -> Vec<String> {
    all.iter().map(|r| format!("{:?}", r)).collect()
}

#[test]
fn work_that_starts_is_put_in_front() {
    let mut r = Reporter::new();
    let out = r.handle(event("foo", State::Opt(false)), 100);
    assert_eq!(
        shown(&out),
        vec!["Status(Integrating, \"foo\")", "Advance", "Message(\"foo\", Wide)"]
    );
    let out = r.handle(event("bar", State::Opt(false)), 100);
    assert_eq!(
        shown(&out),
        vec!["Status(Integrating, \"bar\")", "Advance", "Message(\"bar, foo\", Wide)"]
    );
    assert_eq!(r.names, texts(&["bar", "foo"]));
}

#[test]
fn work_that_has_finished_is_taken_out() {
    let mut r = Reporter::new();
    r.handle(event("foo", State::Opt(false)), 80);
    r.handle(event("bar", State::Opt(false)), 80);
    let out = r.handle(event("foo", State::Opt(true)), 80);
    assert_eq!(shown(&out), vec!["Message(\"bar\", Narrow)"]);
    assert_eq!(r.names, texts(&["bar"]));
    let out = r.handle(event("foo", State::Llc(false)), 80);
    assert_eq!(shown(&out), vec!["Advance", "Message(\"foo(llc), bar\", Narrow)"]);
    let out = r.handle(event("foo", State::Llc(true)), 80);
    assert_eq!(shown(&out), vec!["Message(\"bar\", Narrow)"]);
    let out = r.handle(event("bar", State::Opt(true)), 80);
    assert_eq!(shown(&out), vec!["Message(\"\", Narrow)"]);
    assert!(r.names.is_empty());
}

#[test]
fn only_the_first_of_equal_labels_is_taken_out() {
    let mut r = Reporter::new();
    r.handle(event("foo", State::Opt(false)), 80);
    r.handle(event("bar", State::Opt(false)), 80);
    r.handle(event("foo", State::Opt(false)), 80);
    assert_eq!(r.names, texts(&["foo", "bar", "foo"]));
    r.handle(event("foo", State::Opt(true)), 80);
    assert_eq!(r.names, texts(&["bar", "foo"]));
}

#[test]
fn work_that_is_not_listed_changes_nothing() {
    let mut r = Reporter::new();
    r.handle(event("foo", State::Opt(false)), 80);
    let out = r.handle(event("bar", State::Ld(true)), 80);
    assert_eq!(shown(&out), vec!["Message(\"foo\", Narrow)"]);
    assert_eq!(r.names, texts(&["foo"]));
}

#[test]
fn linking_is_announced() {
    let mut r = Reporter::new();
    let out = r.handle(event("foo", State::Ld(false)), 120);
    assert_eq!(
        shown(&out),
        vec!["Status(Linking, \"foo\")", "Advance", "Message(\"foo(bin)\", Wide)"]
    );
    let out = r.handle(event("foo", State::Ld(true)), 120);
    assert_eq!(shown(&out), vec!["Message(\"\", Wide)"]);
}

#[test]
fn a_skip_is_announced_but_not_for_the_runtime() {
    let mut r = Reporter::new();
    let out = r.handle(event("foo", State::Skipped), 80);
    assert_eq!(shown(&out), vec!["Status(Skipped, \"foo\")", "Advance", "Message(\"\", Narrow)"]);
    let out = r.handle(event("compiler_interrupts", State::Skipped), 80);
    assert_eq!(shown(&out), vec!["Advance", "Message(\"\", Narrow)"]);
}

#[test]
fn after_an_error_nothing_more_is_drawn() {
    let mut r = Reporter::new();
    r.handle(event("foo", State::Opt(false)), 80);
    let out = r.handle(event("foo", State::Error(String::from("see the log"))), 80);
    assert_eq!(shown(&out), vec!["Fail(\"see the log\")"]);
    assert!(r.failed);
    assert_eq!(r.names, texts(&["foo"]));
    assert!(r.handle(event("bar", State::Opt(false)), 80).is_empty());
    assert!(r.handle(event("foo", State::Opt(true)), 80).is_empty());
    assert!(r.handle(event("bar", State::Error(String::from("again"))), 80).is_empty());
    assert_eq!(r.names, texts(&["foo"]));
    assert!(r.finish().is_empty());
}

#[test]
fn the_end_moves_the_bar_once_more() {
    let r = Reporter::new();
    assert_eq!(shown(&r.finish()), vec!["Advance"]);
}

#[test]
fn the_message_is_cut_to_the_width() {
    let names = texts(&["alpha", "beta", "gamma", "delta"]);
    assert_eq!(message(&names, 200), "alpha, beta, gamma, delta");
    // 80 columns leave 45 characters: 80 - 20 - 15.
    assert_eq!(message(&names, 80), "alpha, beta, gamma, delta");
    // 50 columns leave 15: "alpha, " and "beta" make 11, "alpha, beta, " and "gamma" make 18.
    assert_eq!(message(&names, 50), "alpha, beta, ...");
    // 81 columns leave 16: 81 - 50 - 15.
    assert_eq!(message(&names, 81), "alpha, beta, ...");
    assert_eq!(message(&names, 46), "alpha, ...");
    assert_eq!(message(&names, 0), "alpha, ...");
    assert_eq!(message(&texts(&["alpha"]), 0), "alpha");
    assert_eq!(message(&Vec::new(), 80), "");
}

#[test]
fn the_message_fits_strictly_below_the_limit() {
    // The limit is 100 - 50 - 15 = 35.
    let long = "x".repeat(28);
    let just = "y".repeat(4);
    let over = "y".repeat(5);
    assert_eq!(message(&vec![long.clone(), just.clone()], 100), format!("{}, {}", long, just));
    assert_eq!(message(&vec![long.clone(), over], 100), format!("{}, ...", long));
}

#[test]
fn the_bar_has_two_steps_a_file_and_one_a_linker() {
    assert_eq!(progress_len(0, 0), 1);
    assert_eq!(progress_len(3, 2), 9);
    assert_eq!(progress_len(usize::MAX, usize::MAX), u64::MAX);
}

#[test]
fn layouts_and_statuses_compare() {
    assert_eq!(Layout::Wide, Layout::Wide);
    assert_ne!(Layout::Wide, Layout::Narrow);
    assert_ne!(Status::Linking, Status::Skipped);
}
