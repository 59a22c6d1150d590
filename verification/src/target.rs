//! The output files of a build and the target directory they share.
//!
//! Cargo reports each file it produces together with the name under which it
//! links the file into the target directory. From those links the target
//! directory of the build is derived: the directory that holds the build mode
//! directory (`debug` or `release`), below `target` itself or below the
//! directory of a target triple.

use crate::error::{Error, ErrorView};
use crate::paths::{
    file_name_chars, file_name_of, join_chars, joined_path, parent_chars, parent_of,
};
use crate::text::{chars_of, find, matches_at, occurs_at, occurs_in, same, string_from};
use crate::words::{swap_char, swapped};
use vstd::prelude::*;

verus! {

/// Information of a file flavor.
#[derive(Clone, Copy, Debug)]
pub enum FileFlavor {
    /// Not a special file type.
    Normal,
    /// Like `Normal`, but not directly executable.
    /// For example, a `.wasm` file paired with the "normal" `.js` file.
    Auxiliary,
    /// Something you can link against (e.g., a library).
    Linkable,
    /// An `.rmeta` Rust metadata file.
    Rmeta,
    /// Piece of external debug information (e.g., `.dSYM`/`.pdb` file).
    DebugInfo,
}

/// Information of an output file.
#[derive(Debug)]
pub struct OutputFile {
    /// Absolute path to the file that will be produced by the build process.
    pub path: String,
    /// If it should be linked into `target`, and what it should be called
    /// (e.g., without metadata).
    pub hardlink: Option<String>,
    /// If `--out-dir` is specified, the absolute path to the exported file.
    pub export_path: Option<String>,
    /// Type of the file (library / debug symbol / else).
    pub flavor: FileFlavor,
}

/// What one link tells of the target directory.
pub struct AliasView {
    /// The name of the build mode directory.
    pub mode: Seq<char>,
    /// The directory that holds the build mode directory.
    pub grand: Seq<char>,
    /// The target triple, where `grand` is the directory of one.
    pub target: Option<Seq<char>>,
    /// The directory named `target`, or the one above the triple's.
    pub target_dir: Seq<char>,
}

struct Alias {
    mode: Vec<char>,
    grand: Vec<char>,
    target: Option<Vec<char>>,
    target_dir: Vec<char>,
}

impl View for Alias {
    type V = AliasView;

    closed spec fn view(&self) -> AliasView {
        AliasView {
            mode: self.mode@,
            grand: self.grand@,
            target: match self.target {
                Some(t) => Some(t@),
                None => None,
            },
            target_dir: self.target_dir@,
        }
    }
}

/// The file name of `p`, or the error that tells it has none.
pub open spec fn name_or_fault(p: Seq<char>) -> Result<Seq<char>, ErrorView> {
    match file_name_of(p) {
        Some(name) => Ok(name),
        None => Err(ErrorView::FileName(p)),
    }
}

/// The parent of `p`, or the error that tells it has none.
pub open spec fn parent_or_fault(p: Seq<char>) -> Result<Seq<char>, ErrorView> {
    match parent_of(p) {
        Some(dir) => Ok(dir),
        None => Err(ErrorView::ParentDir(p)),
    }
}

/// The directory of the build mode for a link in `dir`: `dir` itself, or its
/// parent where `dir` is the `examples` directory.
pub open spec fn mode_dir_of(dir: Seq<char>) -> Result<Seq<char>, ErrorView> {
    match name_or_fault(dir) {
        Err(e) => Err(e),
        Ok(name) => if name == "examples"@ {
            parent_or_fault(dir)
        } else {
            Ok(dir)
        },
    }
}

/// What the directory above the build mode directory tells: it is the
/// directory named `target`, or the directory of a target triple below it.
pub open spec fn alias_above(mode: Seq<char>, grand: Seq<char>) -> Result<AliasView, ErrorView> {
    match name_or_fault(grand) {
        Err(e) => Err(e),
        Ok(name) => if name == "target"@ {
            Ok(AliasView { mode, grand, target: None, target_dir: grand })
        } else {
            match parent_or_fault(grand) {
                Err(e) => Err(e),
                Ok(above) => Ok(AliasView { mode, grand, target: Some(name), target_dir: above }),
            }
        },
    }
}

/// What the link `hardlink` tells of the target directory; nothing where it
/// is the link of a build script.
pub open spec fn alias_of(hardlink: Seq<char>) -> Result<Option<AliasView>, ErrorView> {
    match name_or_fault(hardlink) {
        Err(e) => Err(e),
        Ok(name) => if occurs_in("build-script-build"@, name) {
            Ok(None)
        } else {
            match parent_or_fault(hardlink) {
                Err(e) => Err(e),
                Ok(dir) => match mode_dir_of(dir) {
                    Err(e) => Err(e),
                    Ok(mode_dir) => match name_or_fault(mode_dir) {
                        Err(e) => Err(e),
                        Ok(mode) => match parent_or_fault(mode_dir) {
                            Err(e) => Err(e),
                            Ok(grand) => match alias_above(mode, grand) {
                                Err(e) => Err(e),
                                Ok(alias) => Ok(Some(alias)),
                            },
                        },
                    },
                },
            }
        },
    }
}

/// What the links from index `at` on tell, after `acc`. A file without a
/// link tells nothing; the first link that cannot be read fails the whole.
pub open spec fn aliases_from(links: Seq<Option<Seq<char>>>, at: int, acc: Seq<AliasView>) -> Result<
    Seq<AliasView>,
    ErrorView,
>
    decreases links.len() - at,
{
    if at < 0 || at >= links.len() {
        Ok(acc)
    } else {
        match links[at] {
            None => aliases_from(links, at + 1, acc),
            Some(link) => match alias_of(link) {
                Err(e) => Err(e),
                Ok(None) => aliases_from(links, at + 1, acc),
                Ok(Some(alias)) => aliases_from(links, at + 1, acc.push(alias)),
            },
        }
    }
}

/// All of `aliases` name the build mode and the directory above it that the
/// first one names.
pub open spec fn agree(aliases: Seq<AliasView>) -> bool {
    forall|i: int|
        0 <= i < aliases.len() ==> (#[trigger] aliases[i]).mode == aliases[0].mode
            && aliases[i].grand == aliases[0].grand
}

/// The directory that an alias stands for: the target directory, the triple
/// where there is one, and the build mode, each entered from the one before.
pub open spec fn alias_dir(alias: AliasView) -> Seq<char> {
    match alias.target {
        Some(target) => joined_path(joined_path(alias.target_dir, target), alias.mode),
        None => joined_path(alias.target_dir, alias.mode),
    }
}

/// The directory that `aliases` agree on; an error where there is none to
/// ask or where they do not agree.
pub open spec fn resolved(aliases: Seq<AliasView>) -> Result<Seq<char>, ErrorView> {
    if aliases.len() == 0 || !agree(aliases) {
        Err(ErrorView::TargetDirectory)
    } else {
        Ok(alias_dir(aliases[0]))
    }
}

/// The target directory that the links give.
pub open spec fn target_dir_of(links: Seq<Option<Seq<char>>>) -> Result<Seq<char>, ErrorView> {
    match aliases_from(links, 0, Seq::empty()) {
        Err(e) => Err(e),
        Ok(aliases) => resolved(aliases),
    }
}

/// The link of each output file.
pub open spec fn hardlinks_of(files: Seq<OutputFile>) -> Seq<Option<Seq<char>>> {
    Seq::new(
        files.len(),
        |i: int|
            match files[i].hardlink {
                Some(link) => Some(link@),
                None => None,
            },
    )
}

/// Resolution fails closed: where any two aliases disagree on the build mode
/// or on the directory above it, no directory is resolved.
pub proof fn lemma_disagreement_fails(aliases: Seq<AliasView>, i: int, j: int)
    requires
        0 <= i < aliases.len(),
        0 <= j < aliases.len(),
        aliases[i].mode != aliases[j].mode || aliases[i].grand != aliases[j].grand,
    ensures
        resolved(aliases) == Err::<Seq<char>, ErrorView>(ErrorView::TargetDirectory),
{
    if agree(aliases) {
        assert(aliases[i].mode == aliases[0].mode && aliases[i].grand == aliases[0].grand);
        assert(aliases[j].mode == aliases[0].mode && aliases[j].grand == aliases[0].grand);
    }
}

/// Resolution is repeatable: the same links always give the same target
/// directory or the same error, and a target directory that was resolved is
/// the one that every two resolutions agree on.
pub proof fn lemma_same_links_same_target_dir(
    first: Result<String, Error>,
    second: Result<String, Error>,
    links: Seq<Option<Seq<char>>>,
)
    requires
        crate::error::text_result(first) == target_dir_of(links),
        crate::error::text_result(second) == target_dir_of(links),
    ensures
        crate::error::text_result(first) == crate::error::text_result(second),
{
}

/// Where a directory is resolved, every alias stands for that directory.
pub proof fn lemma_resolved_is_shared(aliases: Seq<AliasView>, i: int)
    requires
        0 <= i < aliases.len(),
        resolved(aliases) is Ok,
    ensures
        aliases[i].mode == aliases[0].mode,
        aliases[i].grand == aliases[0].grand,
{
}

/// The views of a list of aliases.
spec fn alias_views(all: Seq<Alias>) -> Seq<AliasView> {
    Seq::new(all.len(), |i: int| all[i]@)
}

fn name_step(p: &Vec<char>) -> (r: Result<Vec<char>, Error>)
    ensures
        match name_or_fault(p@) {
            Ok(name) => r matches Ok(n) && n@ == name,
            Err(e) => r matches Err(x) && x@ == e,
        },
{
    match file_name_chars(p) {
        Some(name) => Ok(name),
        None => Err(Error::FileName(string_from(p))),
    }
}

fn parent_step(p: &Vec<char>) -> (r: Result<Vec<char>, Error>)
    ensures
        match parent_or_fault(p@) {
            Ok(dir) => r matches Ok(d) && d@ == dir,
            Err(e) => r matches Err(x) && x@ == e,
        },
{
    match parent_chars(p) {
        Some(dir) => Ok(dir),
        None => Err(Error::ParentDir(string_from(p))),
    }
}

fn mode_dir_step(dir: Vec<char>) -> (r: Result<Vec<char>, Error>)
    ensures
        match mode_dir_of(dir@) {
            Ok(found) => r matches Ok(d) && d@ == found,
            Err(e) => r matches Err(x) && x@ == e,
        },
{
    match name_step(&dir) {
        Err(e) => Err(e),
        Ok(name) => {
            if same(&name, &chars_of("examples")) {
                parent_step(&dir)
            } else {
                Ok(dir)
            }
        },
    }
}

fn alias_above_step(mode: Vec<char>, grand: Vec<char>) -> (r: Result<Alias, Error>)
    ensures
        match alias_above(mode@, grand@) {
            Ok(alias) => r matches Ok(a) && a@ == alias,
            Err(e) => r matches Err(x) && x@ == e,
        },
{
    match name_step(&grand) {
        Err(e) => Err(e),
        Ok(name) => {
            if same(&name, &chars_of("target")) {
                let target_dir = grand.clone();
                assert(target_dir@ == grand@);
                Ok(Alias { mode, grand, target: None, target_dir })
            } else {
                match parent_step(&grand) {
                    Err(e) => Err(e),
                    Ok(above) => Ok(Alias { mode, grand, target: Some(name), target_dir: above }),
                }
            }
        },
    }
}

fn alias_step(hardlink: &str) -> (r: Result<Option<Alias>, Error>)
    ensures
        match alias_of(hardlink@) {
            Ok(Some(alias)) => r matches Ok(Some(a)) && a@ == alias,
            Ok(None) => r matches Ok(None),
            Err(e) => r matches Err(x) && x@ == e,
        },
{
    let link = chars_of(hardlink);
    let name = match name_step(&link) {
        Ok(name) => name,
        Err(e) => {
            return Err(e);
        },
    };
    if find(&name, &chars_of("build-script-build")).is_some() {
        return Ok(None);
    }
    let dir = match parent_step(&link) {
        Ok(dir) => dir,
        Err(e) => {
            return Err(e);
        },
    };
    let mode_dir = match mode_dir_step(dir) {
        Ok(dir) => dir,
        Err(e) => {
            return Err(e);
        },
    };
    let mode = match name_step(&mode_dir) {
        Ok(name) => name,
        Err(e) => {
            return Err(e);
        },
    };
    let grand = match parent_step(&mode_dir) {
        Ok(dir) => dir,
        Err(e) => {
            return Err(e);
        },
    };
    match alias_above_step(mode, grand) {
        Ok(alias) => Ok(Some(alias)),
        Err(e) => Err(e),
    }
}

fn all_agree(aliases: &Vec<Alias>) -> (r: bool)
    requires
        aliases.len() > 0,
    ensures
        r == agree(alias_views(aliases@)),
{
    let mut i: usize = 1;
    while i < aliases.len()
        invariant
            1 <= i <= aliases.len(),
            forall|j: int|
                0 <= j < i ==> (#[trigger] alias_views(aliases@)[j]).mode == alias_views(
                    aliases@,
                )[0].mode && alias_views(aliases@)[j].grand == alias_views(aliases@)[0].grand,
        decreases aliases.len() - i,
    {
        if !same(&aliases[i].mode, &aliases[0].mode) || !same(&aliases[i].grand, &aliases[0].grand) {
            assert(alias_views(aliases@)[i as int].mode != alias_views(aliases@)[0].mode
                || alias_views(aliases@)[i as int].grand != alias_views(aliases@)[0].grand);
            return false;
        }
        i += 1;
    }
    true
}

fn alias_dir_chars(alias: &Alias) -> (out: Vec<char>)
    ensures
        out@ == alias_dir(alias@),
{
    match &alias.target {
        Some(target) => join_chars(&join_chars(&alias.target_dir, target), &alias.mode),
        None => join_chars(&alias.target_dir, &alias.mode),
    }
}

/// Whether a link is that of a build script, which tells nothing of the
/// target directory.
pub open spec fn is_build_script(link: Seq<char>) -> bool {
    match file_name_of(link) {
        Some(name) => occurs_in("build-script-build"@, name),
        None => false,
    }
}

/// Whether one of the output files has a link to ask: a link that is not
/// that of a build script.
pub open spec fn names_link(links: Seq<Option<Seq<char>>>) -> bool {
    exists|i: int|
        0 <= i < links.len() && (#[trigger] links[i]) is Some && !is_build_script(links[i]->Some_0)
}

/// Without a link to ask, no alias is found.
pub proof fn lemma_no_link_no_alias(links: Seq<Option<Seq<char>>>, at: int, acc: Seq<AliasView>)
    requires
        !names_link(links),
        0 <= at,
    ensures
        aliases_from(links, at, acc) == Ok::<Seq<AliasView>, ErrorView>(acc),
    decreases links.len() - at,
{
    if at < links.len() {
        if links[at] is Some {
            assert(is_build_script(links[at]->Some_0));
        }
        lemma_no_link_no_alias(links, at + 1, acc);
    }
}

/// Whether one of the output files has a link to ask.
pub fn has_link(output_files: &Vec<OutputFile>) -> (r: bool)
    ensures
        r == names_link(hardlinks_of(output_files@)),
{
    let ghost links = hardlinks_of(output_files@);
    let mut i: usize = 0;
    while i < output_files.len()
        invariant
            i <= output_files.len(),
            links == hardlinks_of(output_files@),
            forall|j: int|
                0 <= j < i ==> (#[trigger] links[j]) is None || is_build_script(links[j]->Some_0),
        decreases output_files.len() - i,
    {
        match &output_files[i].hardlink {
            Some(link) => {
                assert(links[i as int] == Some(link@));
                let script = match file_name_chars(&chars_of(link.as_str())) {
                    Some(name) => find(&name, &chars_of("build-script-build")).is_some(),
                    None => false,
                };
                if !script {
                    return true;
                }
            },
            None => {
                assert(links[i as int] is None);
            },
        }
        i += 1;
    }
    false
}

/// Gets the target directory of the workspace. One of the output files must
/// have a link to ask; `find_target_dir` takes any list.
///
/// Every output file with a link, build scripts aside, must lie in the same
/// build mode directory below the same directory; else the build was made
/// for more than one target, and the result is an error.
pub fn target_dir(output_files: Vec<OutputFile>) -> (r: Result<String, Error>)
    requires
        names_link(hardlinks_of(output_files@)),
    ensures
        crate::error::text_result(r) == target_dir_of(hardlinks_of(output_files@)),
        aliases_from(hardlinks_of(output_files@), 0, Seq::empty()) matches Ok(aliases)
            ==> aliases.len() > 0,
{
    let ghost links = hardlinks_of(output_files@);
    let mut aliases: Vec<Alias> = Vec::new();
    let mut i: usize = 0;
    assert(alias_views(aliases@) =~= Seq::<AliasView>::empty());
    while i < output_files.len()
        invariant
            i <= output_files.len(),
            links == hardlinks_of(output_files@),
            aliases_from(links, 0, Seq::empty()) == aliases_from(
                links,
                i as int,
                alias_views(aliases@),
            ),
            forall|j: int|
                0 <= j < i && (#[trigger] links[j]) is Some && !is_build_script(links[j]->Some_0)
                    ==> aliases.len() > 0,
        decreases output_files.len() - i,
    {
        match &output_files[i].hardlink {
            Some(link) => {
                assert(links[i as int] == Some(link@));
                match alias_step(link.as_str()) {
                    Ok(Some(alias)) => {
                        let ghost before = alias_views(aliases@);
                        let ghost added = alias@;
                        aliases.push(alias);
                        assert(alias_views(aliases@) =~= before.push(added));
                    },
                    Ok(None) => {
                        assert(is_build_script(link@));
                    },
                    Err(e) => {
                        return Err(e);
                    },
                }
            },
            None => {
                assert(links[i as int] is None);
            },
        }
        i += 1;
    }
    proof {
        let w = choose|w: int|
            0 <= w < links.len() && (#[trigger] links[w]) is Some && !is_build_script(
                links[w]->Some_0,
            );
        assert(aliases.len() > 0);
        assert(alias_views(aliases@).len() > 0);
    }
    if !all_agree(&aliases) {
        return Err(Error::TargetDirectory);
    }
    assert(alias_views(aliases@)[0] == aliases@[0]@);
    Ok(string_from(&alias_dir_chars(&aliases[0])))
}

/// Gets the target directory of the workspace from any list of output files:
/// a list without a link to ask gives an error, as does one whose links do
/// not agree.
pub fn find_target_dir(output_files: Vec<OutputFile>) -> (r: Result<String, Error>)
    ensures
        crate::error::text_result(r) == target_dir_of(hardlinks_of(output_files@)),
        !names_link(hardlinks_of(output_files@)) ==> r matches Err(Error::TargetDirectory),
{
    if has_link(&output_files) {
        target_dir(output_files)
    } else {
        proof {
            lemma_no_link_no_alias(hardlinks_of(output_files@), 0, Seq::empty());
        }
        Err(Error::TargetDirectory)
    }
}

/// The first index from `from` on at which `c` stands in `s`, or the length
/// of `s` where it stands nowhere.
pub open spec fn index_of(s: Seq<char>, c: char, from: int) -> int
    decreases s.len() - from,
{
    if from < 0 || from >= s.len() {
        s.len() as int
    } else if s[from] == c {
        from
    } else {
        index_of(s, c, from + 1)
    }
}

/// The second of the pieces into which `line` falls when it is cut after
/// each `]`: what follows the first `]`, up to and with the next. There is
/// none where nothing follows the first `]`.
pub open spec fn second_piece(line: Seq<char>) -> Option<Seq<char>> {
    let first = index_of(line, ']', 0);
    if first + 1 >= line.len() {
        None
    } else {
        let next = index_of(line, ']', first + 1);
        Some(
            line.subrange(
                first + 1,
                if next < line.len() {
                    next + 1
                } else {
                    line.len() as int
                },
            ),
        )
    }
}

/// `s` from index `from` on, without the occurrences of the non-empty text
/// `pattern`, found from left to right.
pub open spec fn removed(s: Seq<char>, pattern: Seq<char>, from: int) -> Seq<char>
    decreases s.len() - from,
{
    if from < 0 || from >= s.len() {
        Seq::empty()
    } else if pattern.len() > 0 && occurs_at(s, pattern, from) {
        removed(s, pattern, from + pattern.len())
    } else {
        seq![s[from]] + removed(s, pattern, from + 1)
    }
}

/// The record of output files that a line of the compilation log holds, as
/// a list in the notation that uses round brackets for structures: the
/// line's second piece, without its label and with each curly bracket
/// turned into a round one.
pub open spec fn payload_of(line: Seq<char>) -> Option<Seq<char>> {
    match second_piece(line) {
        None => None,
        Some(piece) => Some(
            swapped(swapped(removed(piece, " Target filenames: "@, 0), '{', '('), '}', ')'),
        ),
    }
}

fn position(s: &Vec<char>, c: char, from: usize) -> (r: usize)
    requires
        from <= s.len(),
    ensures
        r == index_of(s@, c, from as int),
        from <= r <= s.len(),
{
    let mut i: usize = from;
    while i < s.len() && s[i] != c
        invariant
            from <= i <= s.len(),
            index_of(s@, c, from as int) == index_of(s@, c, i as int),
        decreases s.len() - i,
    {
        i += 1;
    }
    i
}

fn remove_text(s: &Vec<char>, pattern: &Vec<char>) -> (out: Vec<char>)
    requires
        pattern.len() > 0,
    ensures
        out@ == removed(s@, pattern@, 0),
{
    let mut out: Vec<char> = Vec::new();
    let mut i: usize = 0;
    assert(out@ + removed(s@, pattern@, 0) =~= removed(s@, pattern@, 0));
    while i < s.len()
        invariant
            i <= s.len(),
            pattern.len() > 0,
            out@ + removed(s@, pattern@, i as int) == removed(s@, pattern@, 0),
        decreases s.len() - i,
    {
        let ghost before = out@;
        if matches_at(s, pattern, i) {
            i += pattern.len();
        } else {
            out.push(s[i]);
            i += 1;
            assert(before.push(s@[i - 1]) + removed(s@, pattern@, i as int) =~= before + (seq![
                s@[i - 1],
            ] + removed(s@, pattern@, i as int)));
        }
    }
    assert(out@ + Seq::<char>::empty() =~= out@);
    out
}

/// The record of output files that a line of the compilation log holds.
pub fn target_filenames(line: &str) -> (r: Result<String, Error>)
    ensures
        match payload_of(line@) {
            Some(payload) => r matches Ok(s) && s@ == payload,
            None => r matches Err(Error::MissingTargetFilenames(l)) && l@ == line@,
        },
{
    let chars = chars_of(line);
    let first = position(&chars, ']', 0);
    if chars.len() == 0 || first >= chars.len() - 1 {
        return Err(Error::MissingTargetFilenames(string_from(&chars)));
    }
    let next = position(&chars, ']', first + 1);
    let end: usize = if next < chars.len() {
        next + 1
    } else {
        chars.len()
    };
    let mut piece: Vec<char> = Vec::new();
    let mut i: usize = first + 1;
    while i < end
        invariant
            first + 1 <= i <= end <= chars.len(),
            piece@ == chars@.subrange(first + 1, i as int),
        decreases end - i,
    {
        piece.push(chars[i]);
        i += 1;
        assert(chars@.subrange(first + 1, i as int) == chars@.subrange(first + 1, i - 1).push(
            chars@[i - 1],
        ));
    }
    let label = chars_of(" Target filenames: ");
    proof {
        reveal_strlit(" Target filenames: ");
    }
    let bare = remove_text(&piece, &label);
    let round = swap_char(&swap_char(&bare, '{', '('), '}', ')');
    Ok(string_from(&round))
}

/// The records of output files that the lines of the compilation log hold,
/// one for each line; the first line that holds none fails the whole.
pub fn output_file_records(compilation_files: &Vec<String>) -> (r: Result<Vec<String>, Error>)
    ensures
        match r {
            Ok(records) => records.len() == compilation_files.len() && forall|i: int|
                0 <= i < records.len() ==> payload_of(#[trigger] compilation_files.deep_view()[i])
                    == Some(records.deep_view()[i]),
            Err(e) => exists|k: int|
                0 <= k < compilation_files.len() && e@ == ErrorView::MissingTargetFilenames(
                    #[trigger] compilation_files.deep_view()[k],
                ) && payload_of(compilation_files.deep_view()[k]) is None && forall|i: int|
                    0 <= i < k ==> payload_of(#[trigger] compilation_files.deep_view()[i]) is Some,
        },
{
    let mut records: Vec<String> = Vec::new();
    let mut i: usize = 0;
    while i < compilation_files.len()
        invariant
            i <= compilation_files.len(),
            records.len() == i,
            forall|j: int|
                0 <= j < i ==> payload_of(#[trigger] compilation_files.deep_view()[j]) == Some(
                    records.deep_view()[j],
                ),
        decreases compilation_files.len() - i,
    {
        let line = compilation_files[i].as_str();
        assert(line@ == compilation_files.deep_view()[i as int]);
        match target_filenames(line) {
            Ok(record) => {
                let ghost before = records.deep_view();
                records.push(record);
                assert(forall|j: int| 0 <= j < i ==> records.deep_view()[j] == before[j]);
            },
            Err(e) => {
                return Err(e);
            },
        }
        i += 1;
    }
    Ok(records)
}

} // verus!
