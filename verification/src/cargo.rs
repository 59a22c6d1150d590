//! Cargo wrapper: what a `cargo build` is asked, and what its diagnostic
//! stream tells of the linker invocations it made.

use crate::error::{Error, ErrorView};
use crate::paths::{extension_chars, extension_of, file_name_chars};
use crate::target::{find_target_dir, hardlinks_of, target_dir_of, OutputFile};
use crate::text::{chars_of, occurs_in, owned, same, str_eq, string_from};
use crate::words::{remove_char, split_words, without, words};
use crate::lists::append_all;
use vstd::prelude::*;

verus! {

/// Arguments of a linker invocation.
#[derive(Debug)]
pub struct LinkerArgs {
    /// List of input files.
    pub input_files: Vec<String>,
    /// Path to the output file.
    pub output_file: String,
    /// List of rlib files.
    pub rlib_files: Vec<String>,
    /// List of directories for library search.
    pub library_dirs: Vec<String>,
    /// Other flags.
    pub flags: Vec<String>,
}

/// The mathematical value of `LinkerArgs`.
pub struct LinkerArgsView {
    pub input_files: Seq<Seq<char>>,
    pub output_file: Seq<char>,
    pub rlib_files: Seq<Seq<char>>,
    pub library_dirs: Seq<Seq<char>>,
    pub flags: Seq<Seq<char>>,
}

impl View for LinkerArgs {
    type V = LinkerArgsView;

    open spec fn view(&self) -> LinkerArgsView {
        LinkerArgsView {
            input_files: self.input_files.deep_view(),
            output_file: self.output_file@,
            rlib_files: self.rlib_files.deep_view(),
            library_dirs: self.library_dirs.deep_view(),
            flags: self.flags.deep_view(),
        }
    }
}

/// Linker invocation.
#[derive(Debug)]
pub struct Linker {
    /// Linker program name.
    pub program: String,
    /// Arguments for the linker.
    pub args: LinkerArgs,
    /// The arguments in the order in which the build passed them.
    pub command: Vec<String>,
}

/// The mathematical value of a `Linker`.
pub struct LinkerView {
    pub program: Seq<char>,
    pub args: LinkerArgsView,
    pub command: Seq<Seq<char>>,
}

impl View for Linker {
    type V = LinkerView;

    open spec fn view(&self) -> LinkerView {
        LinkerView { program: self.program@, args: self.args@, command: self.command.deep_view() }
    }
}

/// The values of a list of linker invocations.
pub open spec fn linker_views(all: Seq<Linker>) -> Seq<LinkerView> {
    Seq::new(all.len(), |i: int| all[i]@)
}

/// Subset of information about the `cargo-build` invocation.
#[derive(Debug)]
pub struct Cargo {
    /// Arguments.
    pub args: Vec<String>,
    /// Linkers.
    pub linkers: Vec<Linker>,
    /// Target directory.
    pub target_dir: String,
}

impl Cargo {
    /// Initialize Cargo with given arguments.
    pub fn with_args(args: Vec<String>) -> (cargo: Self)
        ensures
            cargo.args == args,
            cargo.linkers@.len() == 0,
            cargo.target_dir@.len() == 0,
    {
        Self { args, linkers: Vec::new(), target_dir: String::new() }
    }
}

/// Each directory of `dirs` after a `-L` of its own.
pub open spec fn search_flags(dirs: Seq<Seq<char>>) -> Seq<Seq<char>>
    decreases dirs.len(),
{
    if dirs.len() == 0 {
        Seq::empty()
    } else {
        search_flags(dirs.drop_last()).push("-L"@).push(dirs.last())
    }
}

impl LinkerArgsView {
    /// Linker arguments without anything in them.
    pub open spec fn empty() -> LinkerArgsView {
        LinkerArgsView {
            input_files: Seq::empty(),
            output_file: Seq::empty(),
            rlib_files: Seq::empty(),
            library_dirs: Seq::empty(),
            flags: Seq::empty(),
        }
    }

    /// The complete argument list: the input files, `-o` and the output
    /// file, the rlib files, each search directory after `-L`, and the flags.
    pub open spec fn built(self) -> Seq<Seq<char>> {
        self.input_files + seq!["-o"@, self.output_file] + self.rlib_files + search_flags(
            self.library_dirs,
        ) + self.flags
    }
}

impl LinkerArgs {
    /// Build a complete linker arguments.
    pub fn build(self) -> (all: Vec<String>)
        ensures
            all.deep_view() == self@.built(),
    {
        let mut all: Vec<String> = Vec::new();
        append_all(&mut all, self.input_files);
        all.push(string_from(&chars_of("-o")));
        all.push(self.output_file);
        append_all(&mut all, self.rlib_files);
        let ghost head = all.deep_view();
        assert(head =~= self@.input_files + seq!["-o"@, self@.output_file] + self@.rlib_files);
        let dirs = self.library_dirs;
        let mut i: usize = 0;
        assert(dirs.deep_view().take(0) =~= Seq::<Seq<char>>::empty());
        assert(all.deep_view() =~= head + search_flags(dirs.deep_view().take(0)));
        while i < dirs.len()
            invariant
                i <= dirs.len(),
                all.deep_view() == head + search_flags(dirs.deep_view().take(i as int)),
            decreases dirs.len() - i,
        {
            let ghost before = all.deep_view();
            all.push(string_from(&chars_of("-L")));
            all.push(dirs[i].clone());
            i += 1;
            proof {
                let taken = dirs.deep_view().take(i as int);
                assert(taken.drop_last() =~= dirs.deep_view().take(i - 1));
                assert(taken.last() == dirs@[i - 1]@);
                assert(all.deep_view() =~= before.push("-L"@).push(dirs@[i - 1]@));
                assert(all.deep_view() =~= head + search_flags(taken));
            }
        }
        assert(dirs.deep_view().take(dirs.len() as int) =~= dirs.deep_view());
        append_all(&mut all, self.flags);
        all
    }
}

/// What marks a line of the link log as a linker invocation: every linker
/// invocation that produces a binary names this library.
pub open spec fn linker_marker() -> Seq<char> {
    "libcompiler_builtins"@
}

/// The words of a linker line: its quote characters are dropped, it is split
/// at whitespace, and the first two words, the log level and the log target,
/// are left out.
pub open spec fn linker_words(line: Seq<char>) -> Seq<Seq<char>> {
    let all = words(without(line, '"'));
    if all.len() >= 2 {
        all.skip(2)
    } else {
        Seq::empty()
    }
}

/// Sorts the linker's arguments from index `at` on into `acc`. An argument
/// that holds `-o` makes the next one the output file; one that holds `-L`
/// makes the next one a search directory; any other is an rlib file where it
/// names an existing file with the extension `rlib`, an input file where it
/// names another existing file, and a flag where it names none.
pub open spec fn sorted_args(
    tokens: Seq<Seq<char>>,
    files: Seq<Seq<char>>,
    at: int,
    acc: LinkerArgsView,
) -> Result<LinkerArgsView, ErrorView>
    decreases tokens.len() - at,
{
    if at < 0 || at >= tokens.len() {
        Ok(acc)
    } else if occurs_in("-o"@, tokens[at]) {
        if at + 1 < tokens.len() {
            sorted_args(
                tokens,
                files,
                at + 2,
                LinkerArgsView { output_file: tokens[at + 1], ..acc },
            )
        } else {
            Err(ErrorView::MissingOutputFile)
        }
    } else if occurs_in("-L"@, tokens[at]) {
        if at + 1 < tokens.len() {
            sorted_args(
                tokens,
                files,
                at + 2,
                LinkerArgsView { library_dirs: acc.library_dirs.push(tokens[at + 1]), ..acc },
            )
        } else {
            Err(ErrorView::MissingLibraryDir)
        }
    } else if files.contains(tokens[at]) {
        if extension_of(tokens[at]) == Some("rlib"@) {
            sorted_args(
                tokens,
                files,
                at + 1,
                LinkerArgsView { rlib_files: acc.rlib_files.push(tokens[at]), ..acc },
            )
        } else {
            sorted_args(
                tokens,
                files,
                at + 1,
                LinkerArgsView { input_files: acc.input_files.push(tokens[at]), ..acc },
            )
        }
    } else {
        sorted_args(
            tokens,
            files,
            at + 1,
            LinkerArgsView { flags: acc.flags.push(tokens[at]), ..acc },
        )
    }
}

/// How many output markers stand among the linker's arguments from index
/// `at` on. A word that follows an output marker or a search marker is that
/// marker's own and is no marker itself.
pub open spec fn output_markers(tokens: Seq<Seq<char>>, at: int) -> nat
    decreases tokens.len() - at,
{
    if at < 0 || at >= tokens.len() {
        0
    } else if occurs_in("-o"@, tokens[at]) {
        if at + 1 < tokens.len() {
            1 + output_markers(tokens, at + 2)
        } else {
            1
        }
    } else if occurs_in("-L"@, tokens[at]) {
        if at + 1 < tokens.len() {
            output_markers(tokens, at + 2)
        } else {
            0
        }
    } else {
        output_markers(tokens, at + 1)
    }
}

/// The index of the first output marker among the linker's arguments from
/// index `at` on, or the number of words where there is none.
pub open spec fn output_marker_at(tokens: Seq<Seq<char>>, at: int) -> int
    decreases tokens.len() - at,
{
    if at < 0 || at >= tokens.len() {
        tokens.len() as int
    } else if occurs_in("-o"@, tokens[at]) {
        at
    } else if occurs_in("-L"@, tokens[at]) {
        if at + 1 < tokens.len() {
            output_marker_at(tokens, at + 2)
        } else {
            tokens.len() as int
        }
    } else {
        output_marker_at(tokens, at + 1)
    }
}

/// The linker invocation that a linker line holds: the first of its words is
/// the program, the others are its arguments, kept both sorted and in their
/// order. An invocation has exactly one output path: a line without an
/// output marker holds no invocation, and a line with more than one is an
/// error.
pub open spec fn parsed_linker(line: Seq<char>, files: Seq<Seq<char>>) -> Result<
    Option<LinkerView>,
    ErrorView,
> {
    let tokens = linker_words(line);
    if tokens.len() == 0 {
        Err(ErrorView::MissingLinkerProgram)
    } else {
        match sorted_args(tokens, files, 1, LinkerArgsView::empty()) {
            Ok(args) => if output_markers(tokens, 1) == 0 {
                Ok(None)
            } else if output_markers(tokens, 1) == 1 {
                Ok(Some(LinkerView { program: tokens[0], args, command: tokens.skip(1) }))
            } else {
                Err(ErrorView::SeveralOutputFiles)
            },
            Err(e) => Err(e),
        }
    }
}

/// What the sorting makes of the output file: without an output marker it
/// stays what it was; with exactly one it is the word after that marker.
pub proof fn lemma_sorted_output(
    tokens: Seq<Seq<char>>,
    files: Seq<Seq<char>>,
    at: int,
    acc: LinkerArgsView,
)
    requires
        0 <= at,
        sorted_args(tokens, files, at, acc) is Ok,
    ensures
        output_markers(tokens, at) == 0 ==> sorted_args(tokens, files, at, acc)->Ok_0.output_file
            == acc.output_file,
        output_markers(tokens, at) == 1 ==> at <= output_marker_at(tokens, at)
            && output_marker_at(tokens, at) + 1 < tokens.len() && occurs_in(
            "-o"@,
            tokens[output_marker_at(tokens, at)],
        ) && sorted_args(tokens, files, at, acc)->Ok_0.output_file == tokens[output_marker_at(
            tokens,
            at,
        ) + 1],
    decreases tokens.len() - at,
{
    if at < tokens.len() {
        if occurs_in("-o"@, tokens[at]) {
            lemma_sorted_output(
                tokens,
                files,
                at + 2,
                LinkerArgsView { output_file: tokens[at + 1], ..acc },
            );
        } else if occurs_in("-L"@, tokens[at]) {
            lemma_sorted_output(
                tokens,
                files,
                at + 2,
                LinkerArgsView { library_dirs: acc.library_dirs.push(tokens[at + 1]), ..acc },
            );
        } else if files.contains(tokens[at]) {
            if extension_of(tokens[at]) == Some("rlib"@) {
                lemma_sorted_output(
                    tokens,
                    files,
                    at + 1,
                    LinkerArgsView { rlib_files: acc.rlib_files.push(tokens[at]), ..acc },
                );
            } else {
                lemma_sorted_output(
                    tokens,
                    files,
                    at + 1,
                    LinkerArgsView { input_files: acc.input_files.push(tokens[at]), ..acc },
                );
            }
        } else {
            lemma_sorted_output(
                tokens,
                files,
                at + 1,
                LinkerArgsView { flags: acc.flags.push(tokens[at]), ..acc },
            );
        }
    }
}

/// The words of a linker line are not empty.
pub proof fn lemma_linker_words(line: Seq<char>, k: int)
    requires
        0 <= k < linker_words(line).len(),
    ensures
        linker_words(line)[k].len() > 0,
{
    let all = words(without(line, '"'));
    crate::words::lemma_words_shape(without(line, '"'), 0);
    assert(linker_words(line)[k] == all[k + 2]);
    assert(crate::words::is_word(all[k + 2]));
}

/// Every linker invocation has exactly one output path: its line holds one
/// output marker, and the output file is the word that follows that marker
/// and is not empty.
pub proof fn lemma_one_output_path(line: Seq<char>, files: Seq<Seq<char>>)
    requires
        parsed_linker(line, files) matches Ok(Some(_)),
    ensures
        output_markers(linker_words(line), 1) == 1,
        1 <= output_marker_at(linker_words(line), 1),
        output_marker_at(linker_words(line), 1) + 1 < linker_words(line).len(),
        parsed_linker(line, files)->Ok_0->Some_0.args.output_file == linker_words(
            line,
        )[output_marker_at(linker_words(line), 1) + 1],
        parsed_linker(line, files)->Ok_0->Some_0.args.output_file.len() > 0,
{
    let tokens = linker_words(line);
    lemma_sorted_output(tokens, files, 1, LinkerArgsView::empty());
    lemma_linker_words(line, output_marker_at(tokens, 1) + 1);
}

/// The linker invocations of the lines from index `at` on, after those of
/// `acc`. A line without the marker is passed over, and so is one that holds
/// no invocation; the first line that cannot be parsed fails the whole.
pub open spec fn parsed_linkers_from(
    link_info: Seq<Seq<char>>,
    files: Seq<Seq<char>>,
    at: int,
    acc: Seq<LinkerView>,
) -> Result<Seq<LinkerView>, ErrorView>
    decreases link_info.len() - at,
{
    if at < 0 || at >= link_info.len() {
        Ok(acc)
    } else if !occurs_in(linker_marker(), link_info[at]) {
        parsed_linkers_from(link_info, files, at + 1, acc)
    } else {
        match parsed_linker(link_info[at], files) {
            Ok(Some(linker)) => parsed_linkers_from(link_info, files, at + 1, acc.push(linker)),
            Ok(None) => parsed_linkers_from(link_info, files, at + 1, acc),
            Err(e) => Err(e),
        }
    }
}

/// The linker invocations that the link log holds, given the texts that name
/// existing files.
pub open spec fn parsed_linkers(link_info: Seq<Seq<char>>, files: Seq<Seq<char>>) -> Result<
    Seq<LinkerView>,
    ErrorView,
> {
    parsed_linkers_from(link_info, files, 0, Seq::empty())
}

/// The view of a list of linkers or an error.
pub open spec fn linkers_result(r: Result<Vec<Linker>, Error>) -> Result<
    Seq<LinkerView>,
    ErrorView,
> {
    match r {
        Ok(all) => Ok(linker_views(all@)),
        Err(e) => Err(e@),
    }
}

/// The view of a linker, of none, or of an error.
pub open spec fn linker_result(r: Result<Option<Linker>, Error>) -> Result<
    Option<LinkerView>,
    ErrorView,
> {
    match r {
        Ok(Some(linker)) => Ok(Some(linker@)),
        Ok(None) => Ok(None),
        Err(e) => Err(e@),
    }
}

/// Every linker of the list names an output file.
pub open spec fn all_have_output(all: Seq<LinkerView>) -> bool {
    forall|i: int| 0 <= i < all.len() ==> (#[trigger] all[i]).args.output_file.len() > 0
}

/// Parsing is repeatable: two results of parsing the same link log, with the
/// same texts naming files, hold the same linker invocations or the same
/// error.
pub proof fn lemma_same_log_same_linkers(
    first: Result<Vec<Linker>, Error>,
    second: Result<Vec<Linker>, Error>,
    link_info: Seq<Seq<char>>,
    files: Seq<Seq<char>>,
)
    requires
        linkers_result(first) == parsed_linkers(link_info, files),
        linkers_result(second) == parsed_linkers(link_info, files),
    ensures
        linkers_result(first) == linkers_result(second),
{
}

/// Whether `text` is one of `all`.
pub fn is_listed(all: &Vec<String>, text: &str) -> (r: bool)
    ensures
        r == all.deep_view().contains(text@),
{
    let mut i: usize = 0;
    while i < all.len()
        invariant
            i <= all.len(),
            forall|j: int| 0 <= j < i ==> all.deep_view()[j] != text@,
        decreases all.len() - i,
    {
        if str_eq(all[i].as_str(), text) {
            assert(all.deep_view()[i as int] == text@);
            return true;
        }
        i += 1;
    }
    false
}

/// Whether a line of the link log is a linker invocation.
pub fn is_linker_line(line: &str) -> (r: bool)
    ensures
        r == occurs_in(linker_marker(), line@),
{
    crate::text::contains(line, "libcompiler_builtins")
}

/// The words of a linker line: program first, then its arguments.
pub fn split_linker_line(line: &str) -> (tokens: Vec<String>)
    ensures
        tokens.deep_view() == linker_words(line@),
{
    let bare = string_from(&remove_char(&chars_of(line), '"'));
    let mut all = split_words(bare.as_str());
    let ghost whole = all.deep_view();
    if all.len() >= 2 {
        all.remove(0);
        all.remove(0);
        assert(all.deep_view() =~= whole.skip(2));
        all
    } else {
        let none: Vec<String> = Vec::new();
        assert(none.deep_view() =~= Seq::<Seq<char>>::empty());
        none
    }
}

fn has_extension(path: &str, wanted: &str) -> (r: bool)
    ensures
        r == (extension_of(path@) == Some(wanted@)),
{
    let p = chars_of(path);
    match file_name_chars(&p) {
        Some(name) => match extension_chars(&name) {
            Some(ext) => same(&ext, &chars_of(wanted)),
            None => false,
        },
        None => false,
    }
}

/// Parses one linker line, given the texts that name existing files. A line
/// without an output marker holds no invocation.
pub fn parse_linker(line: &str, files: &Vec<String>) -> (r: Result<Option<Linker>, Error>)
    ensures
        linker_result(r) == parsed_linker(line@, files.deep_view()),
        r matches Ok(Some(linker)) ==> output_markers(linker_words(line@), 1) == 1
            && linker@.args.output_file.len() > 0 && linker@.args.output_file == linker_words(
            line@,
        )[output_marker_at(linker_words(line@), 1) + 1],
{
    let tokens = split_linker_line(line);
    if tokens.len() == 0 {
        return Err(Error::MissingLinkerProgram);
    }
    let program = tokens[0].clone();
    let mut args = LinkerArgs {
        input_files: Vec::new(),
        output_file: String::new(),
        rlib_files: Vec::new(),
        library_dirs: Vec::new(),
        flags: Vec::new(),
    };
    assert(args@ =~= LinkerArgsView::empty()) by {
        assert(args@.input_files =~= Seq::<Seq<char>>::empty());
        assert(args@.rlib_files =~= Seq::<Seq<char>>::empty());
        assert(args@.library_dirs =~= Seq::<Seq<char>>::empty());
        assert(args@.flags =~= Seq::<Seq<char>>::empty());
    }
    let ghost whole = sorted_args(tokens.deep_view(), files.deep_view(), 1, LinkerArgsView::empty());
    let mut markers: usize = 0;
    let mut i: usize = 1;
    while i < tokens.len()
        invariant
            1 <= i <= tokens.len(),
            markers <= i,
            output_markers(tokens.deep_view(), 1) == markers + output_markers(
                tokens.deep_view(),
                i as int,
            ),
            tokens.deep_view() == linker_words(line@),
            whole == sorted_args(
                tokens.deep_view(),
                files.deep_view(),
                1,
                LinkerArgsView::empty(),
            ),
            whole == sorted_args(tokens.deep_view(), files.deep_view(), i as int, args@),
        decreases tokens.len() - i,
    {
        let arg = tokens[i].clone();
        assert(arg@ == tokens.deep_view()[i as int]);
        let ghost before = args@;
        if crate::text::contains(arg.as_str(), "-o") {
            if i + 1 < tokens.len() {
                args.output_file = tokens[i + 1].clone();
                assert(args@ =~= (LinkerArgsView {
                    output_file: tokens.deep_view()[i + 1],
                    ..before
                }));
                markers += 1;
                i += 2;
            } else {
                return Err(Error::MissingOutputFile);
            }
        } else if crate::text::contains(arg.as_str(), "-L") {
            if i + 1 < tokens.len() {
                args.library_dirs.push(tokens[i + 1].clone());
                assert(args@.library_dirs =~= before.library_dirs.push(tokens.deep_view()[i + 1]));
                assert(args@ =~= (LinkerArgsView {
                    library_dirs: before.library_dirs.push(tokens.deep_view()[i + 1]),
                    ..before
                }));
                i += 2;
            } else {
                return Err(Error::MissingLibraryDir);
            }
        } else if is_listed(files, arg.as_str()) {
            if has_extension(arg.as_str(), "rlib") {
                args.rlib_files.push(arg);
                assert(args@.rlib_files =~= before.rlib_files.push(tokens.deep_view()[i as int]));
                assert(args@ =~= (LinkerArgsView {
                    rlib_files: before.rlib_files.push(tokens.deep_view()[i as int]),
                    ..before
                }));
            } else {
                args.input_files.push(arg);
                assert(args@.input_files =~= before.input_files.push(tokens.deep_view()[i as int]));
                assert(args@ =~= (LinkerArgsView {
                    input_files: before.input_files.push(tokens.deep_view()[i as int]),
                    ..before
                }));
            }
            i += 1;
        } else {
            args.flags.push(arg);
            assert(args@.flags =~= before.flags.push(tokens.deep_view()[i as int]));
            assert(args@ =~= (LinkerArgsView {
                flags: before.flags.push(tokens.deep_view()[i as int]),
                ..before
            }));
            i += 1;
        }
    }
    if markers == 0 {
        return Ok(None);
    }
    if markers > 1 {
        return Err(Error::SeveralOutputFiles);
    }
    let mut command: Vec<String> = Vec::new();
    crate::lists::copy_range(&mut command, &tokens, 1, tokens.len());
    assert(command.deep_view() =~= tokens.deep_view().skip(1));
    proof {
        assert(whole == Ok::<LinkerArgsView, ErrorView>(args@));
        lemma_one_output_path(line@, files.deep_view());
    }
    Ok(Some(Linker { program, args, command }))
}

/// Parse the linker invocation from raw build output. `files` lists the texts
/// that name existing files, among those that `linker_candidates` gives.
/// Every invocation handed out has exactly one output path.
pub fn parse_linkers(link_info: Vec<String>, files: &Vec<String>) -> (r: Result<
    Vec<Linker>,
    Error,
>)
    ensures
        linkers_result(r) == parsed_linkers(link_info.deep_view(), files.deep_view()),
        r matches Ok(linkers) ==> all_have_output(linker_views(linkers@)),
{
    let mut linkers: Vec<Linker> = Vec::new();
    let mut i: usize = 0;
    assert(linker_views(linkers@) =~= Seq::<LinkerView>::empty());
    while i < link_info.len()
        invariant
            i <= link_info.len(),
            parsed_linkers(link_info.deep_view(), files.deep_view()) == parsed_linkers_from(
                link_info.deep_view(),
                files.deep_view(),
                i as int,
                linker_views(linkers@),
            ),
            all_have_output(linker_views(linkers@)),
        decreases link_info.len() - i,
    {
        let line = link_info[i].as_str();
        assert(line@ == link_info.deep_view()[i as int]);
        if is_linker_line(line) {
            match parse_linker(line, files) {
                Ok(Some(linker)) => {
                    let ghost before = linker_views(linkers@);
                    let ghost added = linker@;
                    linkers.push(linker);
                    assert(linker_views(linkers@) =~= before.push(added));
                },
                Ok(None) => {},
                Err(e) => {
                    return Err(e);
                },
            }
        }
        i += 1;
    }
    Ok(linkers)
}

/// The words of the linker lines of the link log, each a text that may name
/// a file: what `parse_linkers` wants to know of.
pub open spec fn candidates_from(link_info: Seq<Seq<char>>, upto: int) -> Seq<Seq<char>>
    decreases upto,
{
    if upto <= 0 || upto > link_info.len() {
        Seq::empty()
    } else if occurs_in(linker_marker(), link_info[upto - 1]) {
        candidates_from(link_info, upto - 1) + linker_words(link_info[upto - 1])
    } else {
        candidates_from(link_info, upto - 1)
    }
}

/// The words of the linker lines of the link log, in order.
pub fn linker_candidates(link_info: &Vec<String>) -> (out: Vec<String>)
    ensures
        out.deep_view() == candidates_from(link_info.deep_view(), link_info.len() as int),
{
    let mut out: Vec<String> = Vec::new();
    let mut i: usize = 0;
    assert(out.deep_view() =~= Seq::<Seq<char>>::empty());
    while i < link_info.len()
        invariant
            i <= link_info.len(),
            out.deep_view() == candidates_from(link_info.deep_view(), i as int),
        decreases link_info.len() - i,
    {
        let line = link_info[i].as_str();
        assert(line@ == link_info.deep_view()[i as int]);
        if is_linker_line(line) {
            let tokens = split_linker_line(line);
            append_all(&mut out, tokens);
        }
        i += 1;
    }
    out
}

/// What a line of the build's diagnostic stream is.
#[derive(Clone, Copy, Debug, PartialEq, Eq, Structural)]
pub enum LogLine {
    /// A line of the link log: it may hold a linker invocation.
    LinkInfo,
    /// A line of the compilation log: it holds a record of output files.
    CompilationFiles,
    /// Any other line that is not empty: it is shown to the user.
    Diagnostic,
    /// An empty line.
    Blank,
}

/// What a line of the build's diagnostic stream is: a line that names the
/// log target of the linker belongs to the link log; else one that names the
/// log target of the compilation files belongs to the compilation log.
pub open spec fn log_line_kind(line: Seq<char>) -> LogLine {
    if occurs_in("rustc_codegen_ssa::back::link"@, line) {
        LogLine::LinkInfo
    } else if occurs_in("cargo::core::compiler::context::compilation_files"@, line) {
        LogLine::CompilationFiles
    } else if line.len() > 0 {
        LogLine::Diagnostic
    } else {
        LogLine::Blank
    }
}

/// Tells what a line of the build's diagnostic stream is.
pub fn classify(line: &str) -> (kind: LogLine)
    ensures
        kind == log_line_kind(line@),
{
    if crate::text::contains(line, "rustc_codegen_ssa::back::link") {
        LogLine::LinkInfo
    } else if crate::text::contains(line, "cargo::core::compiler::context::compilation_files") {
        LogLine::CompilationFiles
    } else if !line.is_empty() {
        LogLine::Diagnostic
    } else {
        LogLine::Blank
    }
}

/// The environment in which `cargo build` is run, as names and values: colour
/// is forced, the linker and the compilation files are logged, and the
/// compiler is told to emit LLVM IR, to leave debug information out and to
/// keep its temporary files.
pub open spec fn build_environment() -> Seq<(Seq<char>, Seq<char>)> {
    seq![
        ("CARGO_TERM_COLOR"@, "always"@),
        ("RUSTC_LOG"@, "rustc_codegen_ssa::back::link=info"@),
        ("CARGO_LOG"@, "cargo::core::compiler::context::compilation_files=debug"@),
        ("RUSTFLAGS"@, "--emit=llvm-ir -Cdebuginfo=0 -Csave-temps"@),
    ]
}

/// The views of a list of names and values.
pub open spec fn pair_views(all: Seq<(String, String)>) -> Seq<(Seq<char>, Seq<char>)> {
    Seq::new(all.len(), |i: int| (all[i].0@, all[i].1@))
}

impl Cargo {
    /// The arguments with which `cargo` is run: `build`, then the
    /// arguments given.
    pub fn build_args(&self) -> (all: Vec<String>)
        ensures
            all.deep_view() == seq!["build"@] + self.args.deep_view(),
    {
        let mut all: Vec<String> = Vec::new();
        all.push(owned("build"));
        let mut i: usize = 0;
        assert(all.deep_view() =~= seq!["build"@] + self.args.deep_view().take(0));
        while i < self.args.len()
            invariant
                i <= self.args.len(),
                all.deep_view() == seq!["build"@] + self.args.deep_view().take(i as int),
            decreases self.args.len() - i,
        {
            let ghost before = all.deep_view();
            all.push(self.args[i].clone());
            i += 1;
            assert(all.deep_view() =~= before.push(self.args@[i - 1]@));
            assert(self.args.deep_view().take(i as int) =~= self.args.deep_view().take(i - 1).push(
                self.args@[i - 1]@,
            ));
            assert(all.deep_view() =~= seq!["build"@] + self.args.deep_view().take(i as int));
        }
        assert(self.args.deep_view().take(self.args.len() as int) =~= self.args.deep_view());
        all
    }

    /// The environment in which `cargo build` is run.
    pub fn build_env() -> (env: Vec<(String, String)>)
        ensures
            pair_views(env@) == build_environment(),
    {
        let mut env: Vec<(String, String)> = Vec::new();
        env.push((owned("CARGO_TERM_COLOR"), owned("always")));
        env.push((owned("RUSTC_LOG"), owned("rustc_codegen_ssa::back::link=info")));
        env.push(
            (owned("CARGO_LOG"), owned("cargo::core::compiler::context::compilation_files=debug")),
        );
        env.push((owned("RUSTFLAGS"), owned("--emit=llvm-ir -Cdebuginfo=0 -Csave-temps")));
        assert(pair_views(env@) =~= build_environment());
        env
    }

    /// Takes in the link log of the build: the linker invocations it holds
    /// become the linkers of this build. Where the log cannot be parsed,
    /// nothing changes.
    pub fn record_linkers(&mut self, link_info: Vec<String>, files: &Vec<String>) -> (r: Result<
        (),
        Error,
    >)
        ensures
            final(self).args == old(self).args,
            final(self).target_dir == old(self).target_dir,
            match parsed_linkers(link_info.deep_view(), files.deep_view()) {
                Ok(linkers) => r is Ok && linker_views(final(self).linkers@) == linkers
                    && all_have_output(linker_views(final(self).linkers@)),
                Err(e) => r matches Err(x) && x@ == e && final(self).linkers == old(self).linkers,
            },
    {
        match parse_linkers(link_info, files) {
            Ok(linkers) => {
                self.linkers = linkers;
                Ok(())
            },
            Err(e) => Err(e),
        }
    }

    /// Takes in the output files of the build: the target directory they
    /// share becomes that of this build. Where they share none, nothing
    /// changes.
    pub fn record_target_dir(&mut self, output_files: Vec<OutputFile>) -> (r: Result<(), Error>)
        ensures
            final(self).args == old(self).args,
            final(self).linkers == old(self).linkers,
            match target_dir_of(hardlinks_of(output_files@)) {
                Ok(dir) => r is Ok && final(self).target_dir@ == dir,
                Err(e) => r matches Err(x) && x@ == e && final(self).target_dir == old(
                    self,
                ).target_dir,
            },
    {
        match find_target_dir(output_files) {
            Ok(dir) => {
                self.target_dir = dir;
                Ok(())
            },
            Err(e) => Err(e),
        }
    }
}

} // verus!
