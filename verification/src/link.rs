//! The link rewriter: how a recovered linker invocation is changed so that
//! it links the integrated code.
//!
//! Each object file among the linker's inputs gives way to its integrated
//! counterpart, except the allocator shim, which must stay as it is. Each
//! archive of a dependency has its codegen-unit member replaced: the
//! integrated object is put into the archive first, and only then is the old
//! member deleted.

use crate::cargo::{is_listed, Linker, LinkerArgs, LinkerView};
use crate::error::{Error, ErrorView};
use crate::lists::{lemma_position_found, lemma_position_of, position_of, without_first};
use crate::paths::{
    append_suffix_chars,
    join_chars,
    joined_path,
    parent_chars,
    parent_of,
    suffixed,
    suffixed_name,
    with_file_name_chars,
    with_file_name_of,
};
use crate::pipeline::{IntegrationCx, State};
use crate::text::{chars_of, occurs_in, string_from};
use crate::units::{crate_name, crate_name_chars, crate_name_of};
use crate::words::{lines, split_lines, swap_char, swapped};
use vstd::prelude::*;

verus! {

/// The symbol by which the allocator shim is known.
pub open spec fn allocator_marker() -> Seq<char> {
    "__rust_alloc"@
}

/// Whether a linker invocation is to be run again: it names an output file,
/// and that file belongs to a crate that has changed.
pub open spec fn is_stale_link(linker: LinkerView, stale_crates: Seq<Seq<char>>) -> bool {
    linker.args.output_file.len() > 0 && stale_crates.contains(
        crate_name_of(linker.args.output_file),
    )
}

/// Whether a linker invocation is to be run again. An invocation for a
/// binary that is still fresh is not.
pub fn stale_link(linker: &Linker, stale_crates: &Vec<String>) -> (r: bool)
    ensures
        r == is_stale_link(linker@, stale_crates.deep_view()),
        stale_crates.len() == 0 ==> !r,
{
    if linker.args.output_file.as_str().is_empty() {
        return false;
    }
    let name = crate_name(linker.args.output_file.as_str());
    is_listed(stale_crates, name.as_str())
}

/// The indices, among the first `upto` linkers, of those to run again.
pub open spec fn stale_links(all: Seq<LinkerView>, stale_crates: Seq<Seq<char>>, upto: int) -> Seq<
    int,
>
    decreases upto,
{
    if upto <= 0 || upto > all.len() {
        Seq::empty()
    } else if is_stale_link(all[upto - 1], stale_crates) {
        stale_links(all, stale_crates, upto - 1).push(upto - 1)
    } else {
        stale_links(all, stale_crates, upto - 1)
    }
}

/// Without a crate that has changed no linker runs again.
pub proof fn lemma_fresh_links_nothing(all: Seq<LinkerView>, upto: int)
    ensures
        stale_links(all, Seq::empty(), upto).len() == 0,
    decreases upto,
{
    if 0 < upto <= all.len() {
        lemma_fresh_links_nothing(all, upto - 1);
    }
}

/// The views of a list of indices.
pub open spec fn index_views(all: Seq<usize>) -> Seq<int> {
    Seq::new(all.len(), |i: int| all[i] as int)
}

/// The linker invocations to run again, by their indices, in order.
pub fn links_to_run(linkers: &Vec<Linker>, stale_crates: &Vec<String>) -> (out: Vec<usize>)
    ensures
        index_views(out@) == stale_links(
            crate::cargo::linker_views(linkers@),
            stale_crates.deep_view(),
            linkers.len() as int,
        ),
        forall|i: int| 0 <= i < out.len() ==> (#[trigger] out[i]) < linkers.len(),
        stale_crates.len() == 0 ==> out.len() == 0,
{
    let ghost all = crate::cargo::linker_views(linkers@);
    let mut out: Vec<usize> = Vec::new();
    let mut i: usize = 0;
    assert(index_views(out@) =~= Seq::<int>::empty());
    while i < linkers.len()
        invariant
            i <= linkers.len(),
            all == crate::cargo::linker_views(linkers@),
            index_views(out@) == stale_links(all, stale_crates.deep_view(), i as int),
            forall|j: int| 0 <= j < out.len() ==> (#[trigger] out[j]) < linkers.len(),
        decreases linkers.len() - i,
    {
        assert(all[i as int] == linkers@[i as int]@);
        if stale_link(&linkers[i], stale_crates) {
            let ghost before = index_views(out@);
            out.push(i);
            assert(index_views(out@) =~= before.push(i as int));
        }
        i += 1;
    }
    proof {
        if stale_crates.len() == 0 {
            assert(stale_crates.deep_view() =~= Seq::<Seq<char>>::empty());
            lemma_fresh_links_nothing(all, linkers.len() as int);
        }
    }
    out
}

/// The object file to link in place of `object`, given the symbols that it
/// defines: itself where it is the allocator shim, else the file with `-ci`
/// after its stem. There is none where the path has no file name.
pub open spec fn object_for(object: Seq<char>, symbols: Seq<char>) -> Option<Seq<char>> {
    if occurs_in(allocator_marker(), symbols) {
        Some(object)
    } else {
        suffixed(object, "ci"@)
    }
}

/// The object file to link in place of `object`.
pub fn instrumented_object(object: &str, symbols: &str) -> (r: Result<String, Error>)
    ensures
        match object_for(object@, symbols@) {
            Some(path) => r matches Ok(p) && p@ == path,
            None => r matches Err(Error::FileStem(p)) && p@ == object@,
        },
{
    let path = chars_of(object);
    if crate::text::contains(symbols, "__rust_alloc") {
        return Ok(string_from(&path));
    }
    match append_suffix_chars(&path, &chars_of("ci")) {
        Some(ci) => Ok(string_from(&ci)),
        None => Err(Error::FileStem(string_from(&path))),
    }
}

/// Puts the integrated counterpart in the place of each object file among
/// the linker's input files. `symbols` holds, for each input file in order,
/// the symbols that it defines. The order of the arguments stays; where an
/// input file has no counterpart, nothing is changed.
pub fn substitute_objects(args: &mut LinkerArgs, symbols: &Vec<String>) -> (r: Result<(), Error>)
    requires
        symbols.len() == old(args).input_files.len(),
    ensures
        final(args)@.output_file == old(args)@.output_file,
        final(args)@.rlib_files == old(args)@.rlib_files,
        final(args)@.library_dirs == old(args)@.library_dirs,
        final(args)@.flags == old(args)@.flags,
        final(args)@.input_files.len() == old(args)@.input_files.len(),
        match r {
            Ok(()) => forall|i: int|
                0 <= i < symbols.len() ==> object_for(
                    #[trigger] old(args)@.input_files[i],
                    symbols.deep_view()[i],
                ) == Some(final(args)@.input_files[i]),
            Err(e) => final(args)@.input_files == old(args)@.input_files && exists|k: int|
                0 <= k < symbols.len() && object_for(
                    #[trigger] old(args)@.input_files[k],
                    symbols.deep_view()[k],
                ) is None && e@ == ErrorView::FileStem(old(args)@.input_files[k]) && forall|
                    i: int,
                |
                    0 <= i < k ==> object_for(
                        #[trigger] old(args)@.input_files[i],
                        symbols.deep_view()[i],
                    ) is Some,
        },
{
    let mut objects: Vec<String> = Vec::new();
    let mut i: usize = 0;
    while i < args.input_files.len()
        invariant
            i <= args.input_files.len(),
            args == old(args),
            symbols.len() == args.input_files.len(),
            objects.len() == i,
            forall|j: int|
                0 <= j < i ==> object_for(
                    #[trigger] args@.input_files[j],
                    symbols.deep_view()[j],
                ) == Some(objects.deep_view()[j]),
        decreases args.input_files.len() - i,
    {
        assert(args.input_files@[i as int]@ == args@.input_files[i as int]);
        assert(symbols@[i as int]@ == symbols.deep_view()[i as int]);
        match instrumented_object(args.input_files[i].as_str(), symbols[i].as_str()) {
            Ok(object) => {
                let ghost before = objects.deep_view();
                objects.push(object);
                assert(forall|j: int| 0 <= j < i ==> objects.deep_view()[j] == before[j]);
            },
            Err(e) => {
                return Err(e);
            },
        }
        i += 1;
    }
    args.input_files = objects;
    Ok(())
}

/// The word to pass to the linker in place of `word`: where `word` is one of
/// the old input files, the new input file at its place; else `word` itself.
pub open spec fn rewritten_word(
    word: Seq<char>,
    old_inputs: Seq<Seq<char>>,
    new_inputs: Seq<Seq<char>>,
) -> Seq<char> {
    let at = position_of(old_inputs, word, 0);
    if at < old_inputs.len() && at < new_inputs.len() {
        new_inputs[at]
    } else {
        word
    }
}

/// The arguments of the linker, each in its place, with the new input files
/// for the old ones.
pub open spec fn rewritten_command(
    command: Seq<Seq<char>>,
    old_inputs: Seq<Seq<char>>,
    new_inputs: Seq<Seq<char>>,
) -> Seq<Seq<char>> {
    Seq::new(command.len(), |k: int| rewritten_word(command[k], old_inputs, new_inputs))
}

fn place_of(all: &Vec<String>, text: &str) -> (at: usize)
    ensures
        at == position_of(all.deep_view(), text@, 0),
        at <= all.len(),
{
    let mut i: usize = 0;
    while i < all.len()
        invariant
            i <= all.len(),
            position_of(all.deep_view(), text@, 0) == position_of(all.deep_view(), text@, i as int),
        decreases all.len() - i,
    {
        if crate::text::str_eq(all[i].as_str(), text) {
            assert(all.deep_view()[i as int] == text@);
            return i;
        }
        assert(all.deep_view()[i as int] != text@);
        i += 1;
    }
    i
}

/// Rewrites a linker invocation so that it links the integrated objects:
/// each input file gives way to its counterpart, among the sorted arguments
/// and in the arguments as they were passed, whose order stays as it was
/// recovered. `symbols` holds, for each input file in order, the symbols that
/// it defines. Where an input file has no counterpart, nothing is changed.
pub fn rewrite_linker(linker: &mut Linker, symbols: &Vec<String>) -> (r: Result<(), Error>)
    requires
        symbols.len() == old(linker).args.input_files.len(),
    ensures
        final(linker).program == old(linker).program,
        final(linker)@.args.output_file == old(linker)@.args.output_file,
        final(linker)@.args.rlib_files == old(linker)@.args.rlib_files,
        final(linker)@.args.library_dirs == old(linker)@.args.library_dirs,
        final(linker)@.args.flags == old(linker)@.args.flags,
        final(linker)@.command.len() == old(linker)@.command.len(),
        match r {
            Ok(()) => final(linker)@.command == rewritten_command(
                old(linker)@.command,
                old(linker)@.args.input_files,
                final(linker)@.args.input_files,
            ) && final(linker)@.args.input_files.len() == symbols.len() && forall|i: int|
                0 <= i < symbols.len() ==> object_for(
                    #[trigger] old(linker)@.args.input_files[i],
                    symbols.deep_view()[i],
                ) == Some(final(linker)@.args.input_files[i]),
            Err(e) => final(linker)@.command == old(linker)@.command
                && final(linker)@.args.input_files == old(linker)@.args.input_files && exists|
                k: int,
            |
                0 <= k < symbols.len() && object_for(
                    #[trigger] old(linker)@.args.input_files[k],
                    symbols.deep_view()[k],
                ) is None && e@ == ErrorView::FileStem(old(linker)@.args.input_files[k])
                    && forall|i: int|
                    0 <= i < k ==> object_for(
                        #[trigger] old(linker)@.args.input_files[i],
                        symbols.deep_view()[i],
                    ) is Some,
        },
{
    let mut old_inputs: Vec<String> = Vec::new();
    crate::lists::copy_range(&mut old_inputs, &linker.args.input_files, 0, linker.args.input_files.len());
    assert(old_inputs.deep_view() =~= linker@.args.input_files) by {
        assert(linker@.args.input_files.subrange(0, linker@.args.input_files.len() as int)
            =~= linker@.args.input_files);
    }
    match substitute_objects(&mut linker.args, symbols) {
        Ok(()) => {},
        Err(e) => {
            return Err(e);
        },
    }
    let ghost wanted = rewritten_command(
        old(linker)@.command,
        old_inputs.deep_view(),
        linker@.args.input_files,
    );
    let mut command: Vec<String> = Vec::new();
    let mut k: usize = 0;
    while k < linker.command.len()
        invariant
            k <= linker.command.len(),
            linker.command == old(linker).command,
            old_inputs.deep_view() == old(linker)@.args.input_files,
            linker.args.input_files.len() == old_inputs.len(),
            wanted == rewritten_command(
                old(linker)@.command,
                old_inputs.deep_view(),
                linker@.args.input_files,
            ),
            command.len() == k,
            forall|j: int| 0 <= j < k ==> command.deep_view()[j] == wanted[j],
        decreases linker.command.len() - k,
    {
        let word = linker.command[k].as_str();
        assert(word@ == linker@.command[k as int]);
        let at = place_of(&old_inputs, word);
        let ghost before = command.deep_view();
        if at < old_inputs.len() {
            assert(linker.args.input_files@[at as int]@ == linker@.args.input_files[at as int]);
            command.push(linker.args.input_files[at].clone());
        } else {
            command.push(linker.command[k].clone());
        }
        assert(forall|j: int| 0 <= j < k ==> command.deep_view()[j] == before[j]);
        k += 1;
    }
    assert(command.deep_view() =~= wanted);
    linker.command = command;
    Ok(())
}

/// Whether a linker argument names the archive of a dependency.
pub open spec fn is_dependency_archive(path: Seq<char>) -> bool {
    occurs_in("deps"@, path) && occurs_in(".rlib"@, path)
}

/// Whether a linker argument names the archive of a dependency.
pub fn dependency_archive(path: &str) -> (r: bool)
    ensures
        r == is_dependency_archive(path@),
{
    crate::text::contains(path, "deps") && crate::text::contains(path, ".rlib")
}

/// Whether a member of an archive is the object of a codegen unit that has
/// not been integrated.
pub open spec fn is_plain_member(name: Seq<char>) -> bool {
    occurs_in("rcgu"@, name) && !occurs_in("-ci"@, name)
}

/// The first of `members`, from index `from` on, that is the object of a
/// codegen unit not yet integrated.
pub open spec fn first_plain(members: Seq<Seq<char>>, from: int) -> Option<Seq<char>>
    decreases members.len() - from,
{
    if from < 0 || from >= members.len() {
        None
    } else if is_plain_member(members[from]) {
        Some(members[from])
    } else {
        first_plain(members, from + 1)
    }
}

/// The member to replace, given the listing of the archive's members, one
/// per line.
pub fn plain_member(listing: &str) -> (r: Option<String>)
    ensures
        match first_plain(lines(listing@), 0) {
            Some(name) => r matches Some(n) && n@ == name,
            None => r is None,
        },
{
    let members = split_lines(listing);
    let mut i: usize = 0;
    while i < members.len()
        invariant
            i <= members.len(),
            members.deep_view() == lines(listing@),
            first_plain(lines(listing@), 0) == first_plain(lines(listing@), i as int),
        decreases members.len() - i,
    {
        let name = members[i].as_str();
        assert(name@ == members.deep_view()[i as int]);
        if crate::text::contains(name, "rcgu") && !crate::text::contains(name, "-ci") {
            return Some(members[i].clone());
        }
        i += 1;
    }
    None
}

/// The arguments with which the archiver is asked for the members of an
/// archive, one per line.
pub open spec fn listing_args(archive: Seq<char>) -> Seq<Seq<char>> {
    seq!["-t"@, archive]
}

/// The arguments with which the archiver is asked for the members of an
/// archive.
pub fn member_listing_args(archive: &str) -> (args: Vec<String>)
    ensures
        args.deep_view() == listing_args(archive@),
{
    let mut args: Vec<String> = Vec::new();
    args.push(string_from(&chars_of("-t")));
    args.push(string_from(&chars_of(archive)));
    assert(args.deep_view() =~= listing_args(archive@));
    args
}

/// The two archiver invocations that replace a member, in the order in
/// which they are run.
#[derive(Debug)]
pub struct ArchivePlan {
    /// Puts the integrated object into the archive, before the old member.
    pub insert: Vec<String>,
    /// Deletes the old member.
    pub delete: Vec<String>,
}

/// The arguments that put the object `new` into `archive`, before the member
/// `old`.
pub open spec fn insert_args(archive: Seq<char>, old: Seq<char>, new: Seq<char>) -> Seq<Seq<char>> {
    seq!["-rb"@, old, archive, new]
}

/// The arguments that delete the member `old` from `archive`.
pub open spec fn delete_args(archive: Seq<char>, old: Seq<char>) -> Seq<Seq<char>> {
    seq!["-d"@, archive, old]
}

/// Plans the patching of an archive, given the listing of its members and
/// the directory that holds the objects of the dependencies. There is nothing
/// to do where the archive has no member to replace.
pub fn archive_plan(archive: &str, listing: &str, deps_path: &str) -> (r: Result<
    Option<ArchivePlan>,
    Error,
>)
    ensures
        match first_plain(lines(listing@), 0) {
            None => r matches Ok(None),
            Some(member) => match suffixed(joined_path(deps_path@, member), "ci"@) {
                Some(new) => r matches Ok(Some(plan)) && plan.insert.deep_view() == insert_args(
                    archive@,
                    joined_path(deps_path@, member),
                    new,
                ) && plan.delete.deep_view() == delete_args(
                    archive@,
                    joined_path(deps_path@, member),
                ),
                None => r matches Err(Error::FileStem(p)) && p@ == joined_path(
                    deps_path@,
                    member,
                ),
            },
        },
{
    let member = match plain_member(listing) {
        Some(member) => member,
        None => {
            return Ok(None);
        },
    };
    let old = join_chars(&chars_of(deps_path), &chars_of(member.as_str()));
    let new = match append_suffix_chars(&old, &chars_of("ci")) {
        Some(new) => new,
        None => {
            return Err(Error::FileStem(string_from(&old)));
        },
    };
    let mut insert: Vec<String> = Vec::new();
    insert.push(string_from(&chars_of("-rb")));
    insert.push(string_from(&old));
    insert.push(string_from(&chars_of(archive)));
    insert.push(string_from(&new));
    assert(insert.deep_view() =~= insert_args(archive@, old@, new@));
    let mut delete: Vec<String> = Vec::new();
    delete.push(string_from(&chars_of("-d")));
    delete.push(string_from(&chars_of(archive)));
    delete.push(string_from(&old));
    assert(delete.deep_view() =~= delete_args(archive@, old@));
    Ok(Some(ArchivePlan { insert, delete }))
}

/// A step of the plan that replaces a member of an archive.
#[derive(Clone, Copy, Debug, PartialEq, Eq, Structural)]
pub enum ArchiveStep {
    /// Putting the integrated object into the archive.
    Insert,
    /// Deleting the old member.
    Delete,
}

/// The step to take once `done` steps of the plan have gone well: the
/// insertion first, the deletion after it, then nothing. After a step that
/// failed nothing more is taken: a failed insertion withholds the deletion.
pub open spec fn next_step(done: nat, failed: bool) -> Option<ArchiveStep> {
    if failed {
        None
    } else if done == 0 {
        Some(ArchiveStep::Insert)
    } else if done == 1 {
        Some(ArchiveStep::Delete)
    } else {
        None
    }
}

/// The deletion is taken only after the insertion has gone well, and no step
/// follows a failure.
pub proof fn lemma_deletion_follows_insertion(done: nat, failed: bool)
    ensures
        next_step(done, failed) == Some(ArchiveStep::Delete) ==> done == 1 && !failed,
        next_step(done, failed) == Some(ArchiveStep::Insert) ==> done == 0 && !failed,
        failed ==> next_step(done, failed) is None,
        next_step(0, true) is None,
{
}

/// Says which archiver run comes next for a plan of which `done` steps have
/// gone well, and with which arguments; `failed` tells that the last step
/// taken has failed. The arguments are those of the plan.
pub fn next_archive_step(plan: &ArchivePlan, done: usize, failed: bool) -> (next: Option<
    (ArchiveStep, Vec<String>),
>)
    ensures
        match next_step(done as nat, failed) {
            Some(step) => next matches Some((s, args)) && s == step && args.deep_view() == (
            match step {
                ArchiveStep::Insert => plan.insert.deep_view(),
                ArchiveStep::Delete => plan.delete.deep_view(),
            }),
            None => next is None,
        },
{
    if failed || done >= 2 {
        return None;
    }
    let mut args: Vec<String> = Vec::new();
    if done == 0 {
        crate::lists::copy_range(&mut args, &plan.insert, 0, plan.insert.len());
        assert(args.deep_view() =~= plan.insert.deep_view()) by {
            assert(plan.insert.deep_view().subrange(0, plan.insert.len() as int)
                =~= plan.insert.deep_view());
        }
        Some((ArchiveStep::Insert, args))
    } else {
        crate::lists::copy_range(&mut args, &plan.delete, 0, plan.delete.len());
        assert(args.deep_view() =~= plan.delete.deep_view()) by {
            assert(plan.delete.deep_view().subrange(0, plan.delete.len() as int)
                =~= plan.delete.deep_view());
        }
        Some((ArchiveStep::Delete, args))
    }
}

/// The members of an archive after `new` was put into it: in front of the
/// first `old`, or at the end where there is no `old`. An archive that holds
/// `new` already keeps its members.
pub open spec fn with_member(members: Seq<Seq<char>>, old: Seq<char>, new: Seq<char>) -> Seq<
    Seq<char>,
> {
    if members.contains(new) {
        members
    } else {
        members.insert(position_of(members, old, 0), new)
    }
}

/// The members of an archive after the first `old` was deleted from it.
pub open spec fn without_member(members: Seq<Seq<char>>, old: Seq<char>) -> Seq<Seq<char>> {
    without_first(members, old)
}

/// The members of an archive after the first `steps` steps of the plan that
/// replaces `old` by `new` have gone well: the insertion, then the deletion.
/// These are the states in which `next_archive_step` can leave an archive.
pub open spec fn after_steps(
    members: Seq<Seq<char>>,
    old: Seq<char>,
    new: Seq<char>,
    steps: nat,
) -> Seq<Seq<char>> {
    if steps == 0 {
        members
    } else if steps == 1 {
        with_member(members, old, new)
    } else {
        without_member(with_member(members, old, new), old)
    }
}

/// The order of the plan keeps the archive usable: wherever the plan stops,
/// before its first step, between its steps or after its last, the archive
/// holds the old member or the new one. Before the first step it is as it
/// was; after the last it holds the new member.
pub proof fn lemma_member_never_lost(
    members: Seq<Seq<char>>,
    old: Seq<char>,
    new: Seq<char>,
    steps: nat,
)
    requires
        members.contains(old),
        old != new,
    ensures
        after_steps(members, old, new, steps).contains(old) || after_steps(
            members,
            old,
            new,
            steps,
        ).contains(new),
        after_steps(members, old, new, 0) == members,
        steps >= 2 ==> after_steps(members, old, new, steps).contains(new),
{
    let first = with_member(members, old, new);
    lemma_position_of(members, old, 0);
    lemma_position_found(members, old);
    let place = position_of(members, old, 0);
    if !members.contains(new) {
        assert(first[place] == new);
        assert(first[place + 1] == old);
    }
    assert(first.contains(new));
    assert(first.contains(old)) by {
        if !members.contains(new) {
            assert(first[place + 1] == old);
        }
    }
    lemma_position_of(first, old, 0);
    lemma_position_found(first, old);
    let k = choose|k: int| 0 <= k < first.len() && first[k] == new;
    let at = position_of(first, old, 0);
    let last = first.remove(at);
    assert(first[at] == old);
    if k < at {
        assert(last[k] == new);
    } else {
        assert(k > at);
        assert(last[k - 1] == new);
    }
}

/// Replacing a member by its integrated counterpart never leaves the archive
/// without one of the two: the counterpart's name, the member's name with
/// `-ci` after its stem, is another name than the member's, so that putting
/// the one in and taking the other out do not undo each other.
pub proof fn lemma_rewrite_keeps_member(members: Seq<Seq<char>>, member: Seq<char>, steps: nat)
    requires
        members.contains(member),
    ensures
        suffixed_name(member, "ci"@) != member,
        after_steps(members, member, suffixed_name(member, "ci"@), steps).contains(member)
            || after_steps(members, member, suffixed_name(member, "ci"@), steps).contains(
            suffixed_name(member, "ci"@),
        ),
        steps >= 2 ==> after_steps(members, member, suffixed_name(member, "ci"@), steps).contains(
            suffixed_name(member, "ci"@),
        ),
{
    crate::paths::lemma_last_dot(member, member.len() as int);
    assert(suffixed_name(member, "ci"@).len() > member.len());
    lemma_member_never_lost(members, member, suffixed_name(member, "ci"@), steps);
}

/// The transition to make known when a linker starts or has finished.
pub fn link_event(linker: &Linker, finished: bool) -> (event: IntegrationCx)
    ensures
        event.crate_name@ == crate_name_of(linker@.args.output_file),
        event.state == State::Ld(finished),
{
    IntegrationCx {
        crate_name: crate_name(linker.args.output_file.as_str()),
        state: State::Ld(finished),
    }
}

/// Where the integrated binary is put: beside the directory that holds the
/// file, under the name of its crate with hyphens and `-ci` after it.
pub open spec fn integrated_path_of(file: Seq<char>) -> Result<Seq<char>, ErrorView> {
    match parent_of(file) {
        None => Err(ErrorView::ParentDir(file)),
        Some(dir) => {
            let path = with_file_name_of(dir, swapped(crate_name_of(file), '_', '-'));
            match suffixed(path, "ci"@) {
                Some(p) => Ok(p),
                None => Err(ErrorView::FileStem(path)),
            }
        },
    }
}

/// Where the integrated binary `file` is put.
pub fn integrated_path(file: &str) -> (r: Result<String, Error>)
    ensures
        match integrated_path_of(file@) {
            Ok(path) => r matches Ok(p) && p@ == path,
            Err(e) => r matches Err(x) && x@ == e,
        },
{
    let chars = chars_of(file);
    let dir = match parent_chars(&chars) {
        Some(dir) => dir,
        None => {
            return Err(Error::ParentDir(string_from(&chars)));
        },
    };
    let name = swap_char(&crate_name_chars(&chars), '_', '-');
    let path = with_file_name_chars(&dir, &name);
    match append_suffix_chars(&path, &chars_of("ci")) {
        Some(p) => Ok(string_from(&p)),
        None => Err(Error::FileStem(string_from(&path))),
    }
}

} // verus!
