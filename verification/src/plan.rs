//! The plan of a run: what a build has left to integrate and to link.
//!
//! A build that has touched nothing leaves nothing to do: no file is
//! integrated, no linker is run, and the user is told that all is fresh.

use crate::cargo::{linker_views, Linker};
use crate::format::{decimal, push_decimal};
use crate::link::{index_views, links_to_run, stale_links};
use crate::paths::{extension_chars, extension_of, file_name_chars, file_stem_of, stem_chars};
use crate::lists::kept;
use crate::text::{chars_of, push_str, string_from, text_view};
use crate::units::{ir_files, is_ir_file, names_crate, stale_crate_names};
use vstd::prelude::*;

verus! {

/// What a run has to do.
#[derive(Debug)]
pub struct Plan {
    /// The IR files to take through the pipeline, in order.
    pub ir_files: Vec<String>,
    /// The crates of binary targets that have changed.
    pub stale_crates: Vec<String>,
    /// The linker invocations to run again, by their indices.
    pub links: Vec<usize>,
}

/// What the user is told where nothing has changed.
pub open spec fn nothing_to_integrate() -> Seq<char> {
    "nothing to integrate, all fresh"@
}

/// What the user is told at the end of a run that integrated `targets`
/// binaries in a time told as `duration`.
pub open spec fn integrated_text(targets: nat, duration: Seq<char>) -> Seq<char> {
    "integrated "@ + decimal(targets) + " target(s) in "@ + duration
}

/// Plans a run from the stale files, the crates of the package's binary
/// targets and the linker invocations of the build. Without a stale file
/// there is no plan: nothing is to be run.
///
/// With stale files, the plan holds the IR files among them, the binary
/// crates that they belong to, and the linker invocations whose output
/// belongs to one of those crates.
pub fn plan(stale_files: &Vec<String>, crate_names: &Vec<String>, linkers: &Vec<Linker>) -> (r:
    Option<Plan>)
    ensures
        r is None <==> stale_files.len() == 0,
        r matches Some(p) ==> {
            &&& p.ir_files.deep_view() == kept(
                stale_files.deep_view(),
                |path: Seq<char>| is_ir_file(path),
                stale_files.len() as int,
            )
            &&& p.stale_crates.deep_view().no_duplicates()
            &&& forall|name: Seq<char>|
                p.stale_crates.deep_view().contains(name) <==> crate_names.deep_view().contains(
                    name,
                ) && names_crate(stale_files.deep_view(), stale_files.len() as int, name)
            &&& index_views(p.links@) == stale_links(
                linker_views(linkers@),
                p.stale_crates.deep_view(),
                linkers.len() as int,
            )
            &&& forall|i: int| 0 <= i < p.links.len() ==> (#[trigger] p.links[i]) < linkers.len()
        },
{
    if stale_files.len() == 0 {
        return None;
    }
    let files = ir_files(stale_files);
    let stale_crates = stale_crate_names(stale_files, crate_names);
    let links = links_to_run(linkers, &stale_crates);
    Some(Plan { ir_files: files, stale_crates, links })
}

/// What the user is told where nothing has changed.
pub fn nothing_message() -> (out: String)
    ensures
        out@ == nothing_to_integrate(),
{
    string_from(&chars_of("nothing to integrate, all fresh"))
}

/// What the user is told at the end of a run.
pub fn finished_message(targets: usize, duration: &str) -> (out: String)
    ensures
        out@ == integrated_text(targets as nat, duration@),
{
    let mut chars = chars_of("integrated ");
    push_decimal(&mut chars, targets as u64);
    push_str(&mut chars, " target(s) in ");
    push_str(&mut chars, duration);
    string_from(&chars)
}

/// The paths among the first `upto` of `paths` that were picked, in order.
pub open spec fn picked(paths: Seq<Seq<char>>, picks: Seq<bool>, upto: int) -> Seq<Seq<char>>
    decreases upto,
{
    if upto <= 0 || upto > paths.len() || upto > picks.len() {
        Seq::empty()
    } else if picks[upto - 1] {
        picked(paths, picks, upto - 1).push(paths[upto - 1])
    } else {
        picked(paths, picks, upto - 1)
    }
}

/// What `predicate` said of the path: it was handed the file stem and the
/// extension of the path, and answered `pick`.
pub open spec fn answered<F: Fn(Option<String>, Option<String>) -> bool>(
    predicate: F,
    path: Seq<char>,
    pick: bool,
) -> bool {
    exists|stem: Option<String>, ext: Option<String>|
        text_view(stem) == file_stem_of(path) && text_view(ext) == extension_of(path)
            && #[trigger] predicate.ensures((stem, ext), pick)
}

/// Scan the entries of a directory for files matching the predicate, which
/// is handed the file stem and the extension of each. The files that it
/// accepts are handed out, in the order of the entries.
pub fn scan_dir<F: Fn(Option<String>, Option<String>) -> bool>(
    entries: &Vec<String>,
    predicate: F,
) -> (files: Vec<String>)
    requires
        forall|stem: Option<String>, ext: Option<String>| predicate.requires((stem, ext)),
    ensures
        exists|picks: Seq<bool>|
            picks.len() == entries.len() && files.deep_view() == picked(
                entries.deep_view(),
                picks,
                entries.len() as int,
            ) && forall|i: int|
                0 <= i < entries.len() ==> answered(
                    predicate,
                    #[trigger] entries.deep_view()[i],
                    picks[i],
                ),
{
    let mut files: Vec<String> = Vec::new();
    let ghost mut picks: Seq<bool> = Seq::empty();
    let mut i: usize = 0;
    assert(files.deep_view() =~= Seq::<Seq<char>>::empty());
    while i < entries.len()
        invariant
            i <= entries.len(),
            picks.len() == i,
            forall|stem: Option<String>, ext: Option<String>| predicate.requires((stem, ext)),
            files.deep_view() == picked(entries.deep_view(), picks, i as int),
            forall|j: int|
                0 <= j < i ==> answered(predicate, #[trigger] entries.deep_view()[j], picks[j]),
        decreases entries.len() - i,
    {
        let path = chars_of(entries[i].as_str());
        assert(path@ == entries.deep_view()[i as int]);
        let (stem, ext) = match file_name_chars(&path) {
            Some(name) => (
                Some(string_from(&stem_chars(&name))),
                match extension_chars(&name) {
                    Some(e) => Some(string_from(&e)),
                    None => None,
                },
            ),
            None => (None, None),
        };
        let ghost stem_seen = stem;
        let ghost ext_seen = ext;
        assert(text_view(stem_seen) == file_stem_of(path@));
        assert(text_view(ext_seen) == extension_of(path@));
        let pick = predicate(stem, ext);
        assert(predicate.ensures((stem_seen, ext_seen), pick));
        assert(answered(predicate, path@, pick));
        let ghost before = files.deep_view();
        let ghost old_picks = picks;
        proof {
            picks = picks.push(pick);
        }
        if pick {
            files.push(entries[i].clone());
            assert(files.deep_view() =~= before.push(path@));
        }
        i += 1;
        proof {
            lemma_picked_prefix(entries.deep_view(), old_picks, picks, i - 1);
            assert forall|j: int| 0 <= j < i implies answered(
                predicate,
                #[trigger] entries.deep_view()[j],
                picks[j],
            ) by {
                if j < i - 1 {
                    assert(picks[j] == old_picks[j]);
                }
            }
        }
    }
    files
}

/// What was picked among the first paths depends on the first picks alone.
pub proof fn lemma_picked_prefix(paths: Seq<Seq<char>>, a: Seq<bool>, b: Seq<bool>, upto: int)
    requires
        0 <= upto <= a.len(),
        upto <= b.len(),
        forall|j: int| 0 <= j < upto ==> a[j] == b[j],
    ensures
        picked(paths, a, upto) == picked(paths, b, upto),
    decreases upto,
{
    if 0 < upto <= paths.len() {
        lemma_picked_prefix(paths, a, b, upto - 1);
    }
}

} // verus!
