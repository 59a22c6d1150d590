//! What the end of a tool's run means for the task that ran it.
//!
//! A tool has failed where it says so, and also where it reports success and
//! has left no output file behind. The user is shown a notice at once; the
//! error holds the tool's own words, cut down to their first and last lines.

use crate::digest::{md5_bytes, md5_digest};
use crate::error::{Error, ErrorView};
use crate::format::{hex, join, joined, push_hex};
use crate::pipeline::Failure;
use crate::lists::copy_range;
use crate::text::{chars_of, push_str, string_from, text_view};
use crate::words::{lines, split_lines};
use vstd::prelude::*;
use vstd::string::StringSliceAdditionalSpecFns;

verus! {

/// How a tool's run ended.
#[derive(Debug)]
pub enum ToolOutcome {
    /// The tool reported success.
    Ran {
        /// What it wrote to its error stream.
        stderr: String,
        /// Whether the file it was to make is there.
        output_exists: bool,
    },
    /// The tool could not be run or reported a failure.
    Failed {
        /// The description of the failure, with the tool's output.
        desc: String,
    },
}

/// The lines of a diagnostic that are kept: the first two, a mark, and the
/// last ten. A short diagnostic has lines in both parts.
pub open spec fn truncated(all: Seq<Seq<char>>) -> Seq<Seq<char>> {
    all.take(if all.len() < 2 {
        all.len() as int
    } else {
        2
    }) + seq!["(truncated)"@] + all.skip(
        if all.len() < 10 {
            0
        } else {
            all.len() - 10
        },
    )
}

/// A diagnostic cut down to the lines that are kept, one per line.
pub open spec fn truncated_diagnostic(desc: Seq<char>) -> Seq<char> {
    joined(truncated(lines(desc)), "\n"@)
}

/// The notice for a tool that reported success and left no output file.
pub open spec fn missing_notice() -> Seq<char> {
    "Process returned success but output file does not exist"@
}

/// The notice for a tool that failed: where the full log was written, or how
/// to have it written.
pub open spec fn failure_notice(log_path: Option<Seq<char>>) -> Seq<char> {
    match log_path {
        Some(path) =>
            "Consider filing an issue report on \"https://github.com/bitslab/CompilerInterrupts\" with the LLVM IR file and log attached. Path to the log: "@
                + path,
        None => "Run `cargo-build-ci` with `--debug-ci` to enable full logging"@,
    }
}

/// The name of the file that holds the full log of a failure: the date and
/// the digest of the log, so that the same log is always found under the
/// same name on the same day.
pub open spec fn log_name(date: Seq<char>, digest: Seq<u8>) -> Seq<char> {
    "CI-"@ + date + "-"@ + hex(digest) + ".log"@
}

/// Cuts a diagnostic down to its first two and its last ten lines.
pub fn truncate_diagnostic(desc: &str) -> (out: String)
    ensures
        out@ == truncated_diagnostic(desc@),
{
    let all = split_lines(desc);
    let head: usize = if all.len() < 2 {
        all.len()
    } else {
        2
    };
    let tail: usize = if all.len() < 10 {
        0
    } else {
        all.len() - 10
    };
    let mut kept: Vec<String> = Vec::new();
    assert(kept.deep_view() =~= Seq::<Seq<char>>::empty());
    copy_range(&mut kept, &all, 0, head);
    let ghost first = kept.deep_view();
    kept.push(string_from(&chars_of("(truncated)")));
    assert(kept.deep_view() =~= first.push("(truncated)"@));
    copy_range(&mut kept, &all, tail, all.len());
    assert(kept.deep_view() =~= truncated(lines(desc@))) by {
        assert(all.deep_view().subrange(0, head as int) =~= all.deep_view().take(head as int));
        assert(all.deep_view().subrange(tail as int, all.len() as int) =~= all.deep_view().skip(
            tail as int,
        ));
    }
    join(&kept, "\n")
}

/// Judges how a tool's run ended. `output_file` is the file that the tool
/// was to make; `log_path` is where the full log of a failure was written,
/// if it was.
pub fn check_outcome(outcome: ToolOutcome, output_file: &str, log_path: &Option<String>) -> (r:
    Result<(), Failure>)
    ensures
        match outcome {
            ToolOutcome::Ran { stderr, output_exists } => if output_exists {
                r is Ok
            } else {
                r matches Err(failure) && failure.notice@ == missing_notice() && failure.error@
                    == ErrorView::OutputMissing(output_file@, stderr@)
            },
            ToolOutcome::Failed { desc } => r matches Err(failure) && failure.notice@
                == failure_notice(text_view(*log_path)) && failure.error@
                == ErrorView::ProcessFailed(truncated_diagnostic(desc@)),
        },
{
    match outcome {
        ToolOutcome::Ran { stderr, output_exists } => {
            if output_exists {
                Ok(())
            } else {
                Err(
                    Failure {
                        notice: string_from(
                            &chars_of("Process returned success but output file does not exist"),
                        ),
                        error: Error::OutputMissing(string_from(&chars_of(output_file)), stderr),
                    },
                )
            }
        },
        ToolOutcome::Failed { desc } => {
            let notice = match log_path {
                Some(path) => {
                    let mut chars = chars_of(
                        "Consider filing an issue report on \"https://github.com/bitslab/CompilerInterrupts\" with the LLVM IR file and log attached. Path to the log: ",
                    );
                    push_str(&mut chars, path.as_str());
                    string_from(&chars)
                },
                None => string_from(
                    &chars_of("Run `cargo-build-ci` with `--debug-ci` to enable full logging"),
                ),
            };
            Err(
                Failure {
                    notice,
                    error: Error::ProcessFailed(truncate_diagnostic(desc.as_str())),
                },
            )
        },
    }
}

/// The name of the log file for a log with the given digest, written on the
/// given date.
pub fn log_name_from(date: &str, digest: &Vec<u8>) -> (name: String)
    ensures
        name@ == log_name(date@, digest@),
{
    let mut chars = chars_of("CI-");
    push_str(&mut chars, date);
    chars.push('-');
    push_hex(&mut chars, digest);
    push_str(&mut chars, ".log");
    proof {
        reveal_strlit("-");
        assert("-"@ =~= seq!['-']);
        assert(chars@ =~= log_name(date@, digest@));
    }
    string_from(&chars)
}

/// The name of the file that holds the full log `desc`, written on the given
/// date: the date and the MD5 digest of the log.
pub fn log_file_name(date: &str, desc: &str) -> (name: String)
    ensures
        name@ == log_name(date@, md5_digest(desc.spec_bytes())),
{
    let digest = md5_bytes(desc.as_bytes());
    log_name_from(date, &digest)
}

} // verus!
