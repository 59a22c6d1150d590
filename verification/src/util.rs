//! Miscellaneous utilities.

use crate::format::{decimal, decimal2, push_decimal, push_decimal2};
use crate::paths::{join_chars, joined_path};
use crate::text::{chars_of, push_str, string_from, text_view};
use vstd::prelude::*;

verus! {

/// A duration as people read it: minutes and seconds from one minute on,
/// seconds and hundredths below.
pub open spec fn duration_text(secs: nat, subsec_nanos: nat) -> Seq<char> {
    if secs >= 60 {
        decimal(secs / 60) + "m "@ + decimal2(secs % 60) + "s"@
    } else {
        decimal(secs) + "."@ + decimal2(subsec_nanos / 10_000_000) + "s"@
    }
}

/// Gets a human readable String for a duration, given as its whole seconds
/// and the nanoseconds of its last, unfinished second.
pub fn human_duration(secs: u64, subsec_nanos: u32) -> (out: String)
    ensures
        out@ == duration_text(secs as nat, subsec_nanos as nat),
{
    let mut chars: Vec<char> = Vec::new();
    if secs >= 60 {
        push_decimal(&mut chars, secs / 60);
        push_str(&mut chars, "m ");
        push_decimal2(&mut chars, secs % 60);
        push_str(&mut chars, "s");
    } else {
        push_decimal(&mut chars, secs);
        push_str(&mut chars, ".");
        push_decimal2(&mut chars, (subsec_nanos / 10_000_000) as u64);
        push_str(&mut chars, "s");
    }
    assert(chars@ =~= duration_text(secs as nat, subsec_nanos as nat));
    string_from(&chars)
}

/// The directory of the build's output: the base target directory, the
/// target triple where the build is made for one, and the build mode.
pub open spec fn target_path_of(base: Seq<char>, target: Option<Seq<char>>, mode: Seq<char>) -> Seq<
    char,
> {
    match target {
        Some(triple) => joined_path(joined_path(base, triple), mode),
        None => joined_path(base, mode),
    }
}

/// The directory of the build's output.
pub fn target_path(base: &str, target: &Option<String>, mode: &str) -> (out: String)
    ensures
        out@ == target_path_of(
            base@,
            text_view(*target),
            mode@,
        ),
{
    let start = chars_of(base);
    let dir = match target {
        Some(triple) => join_chars(&start, &chars_of(triple.as_str())),
        None => start,
    };
    string_from(&join_chars(&dir, &chars_of(mode)))
}

/// The directory of the dependencies' output inside the output directory.
pub fn deps_path(target_path: &str) -> (out: String)
    ensures
        out@ == joined_path(target_path@, "deps"@),
{
    string_from(&join_chars(&chars_of(target_path), &chars_of("deps")))
}

/// The directory of the examples' output inside the output directory.
pub fn examples_path(target_path: &str) -> (out: String)
    ensures
        out@ == joined_path(target_path@, "examples"@),
{
    string_from(&join_chars(&chars_of(target_path), &chars_of("examples")))
}

} // verus!
