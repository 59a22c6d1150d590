//! Compilation units: the binary targets of a package, and the files that
//! belong to them.
//!
//! The compiler names its output files after the crate: the crate's name
//! with underscores, then a hyphen and a hash, then extensions. The crate
//! that a file belongs to is read off its name.

use crate::cargo::is_listed;
use crate::error::Error;
use crate::paths::{
    extension_chars, extension_of, file_name_chars, file_stem_of, stem_chars,
};
use crate::text::{chars_of, find, occurs_in, same, string_from};
use crate::words::{swap_char, swapped};
use crate::lists::{kept, lemma_kept};
use vstd::prelude::*;

verus! {

/// The kind of a target that produces a binary.
#[derive(Clone, Copy, Debug, PartialEq, Eq, Structural)]
pub enum TargetKind {
    /// A binary of the package.
    Binary,
    /// An example of the package.
    Example,
}

/// A target of the package, as the package's metadata describes it.
#[derive(Debug)]
pub struct TargetInfo {
    /// Name of the target.
    pub name: String,
    /// Kinds of the target (`bin`, `example`, `lib`, ...).
    pub kinds: Vec<String>,
    /// Crate types of the target (`bin`, `lib`, ...).
    pub crate_types: Vec<String>,
}

/// A named binary target that the package produces.
#[derive(Debug)]
pub struct CompilationUnit {
    /// Name of the target.
    pub name: String,
    /// The name with each hyphen turned into an underscore: the name of the
    /// crate, as it stands in file names and symbols.
    pub ident: String,
    /// Kind of the target.
    pub kind: TargetKind,
}

/// The crate name of a target: its name with each hyphen turned into an
/// underscore.
pub open spec fn normalized(name: Seq<char>) -> Seq<char> {
    swapped(name, '-', '_')
}

/// Whether a target produces a binary: `bin` is among its crate types.
pub open spec fn is_binary(target: TargetInfo) -> bool {
    target.crate_types.deep_view().contains("bin"@)
}

/// The kind of a binary target: an example where `example` is among its
/// kinds.
pub open spec fn kind_of(target: TargetInfo) -> TargetKind {
    if target.kinds.deep_view().contains("example"@) {
        TargetKind::Example
    } else {
        TargetKind::Binary
    }
}

/// The mathematical value of a `CompilationUnit`.
pub struct UnitView {
    pub name: Seq<char>,
    pub ident: Seq<char>,
    pub kind: TargetKind,
}

impl View for CompilationUnit {
    type V = UnitView;

    open spec fn view(&self) -> UnitView {
        UnitView { name: self.name@, ident: self.ident@, kind: self.kind }
    }
}

/// The compilation unit of a binary target: its name, its crate name and its
/// kind.
pub open spec fn unit_of(target: TargetInfo) -> UnitView {
    UnitView { name: target.name@, ident: normalized(target.name@), kind: kind_of(target) }
}

/// The compilation units of the binary targets among the first `upto`
/// targets, in order.
pub open spec fn units_of(targets: Seq<TargetInfo>, upto: int) -> Seq<UnitView>
    decreases upto,
{
    if upto <= 0 || upto > targets.len() {
        Seq::empty()
    } else if is_binary(targets[upto - 1]) {
        units_of(targets, upto - 1).push(unit_of(targets[upto - 1]))
    } else {
        units_of(targets, upto - 1)
    }
}

/// The values of a list of units.
pub open spec fn unit_views(units: Seq<CompilationUnit>) -> Seq<UnitView> {
    Seq::new(units.len(), |i: int| units[i]@)
}

/// The crate name for a target name.
pub fn normalize(name: &str) -> (ident: String)
    ensures
        ident@ == normalized(name@),
{
    string_from(&swap_char(&chars_of(name), '-', '_'))
}

/// The compilation units of the package: its targets that produce a binary,
/// examples among them, in order. A package without any is an error.
pub fn compilation_units(targets: &Vec<TargetInfo>) -> (r: Result<Vec<CompilationUnit>, Error>)
    ensures
        match r {
            Ok(units) => units.len() > 0 && unit_views(units@) == units_of(
                targets@,
                targets.len() as int,
            ),
            Err(e) => e@ == crate::error::ErrorView::BinaryNotFound && units_of(
                targets@,
                targets.len() as int,
            ).len() == 0,
        },
{
    let mut units: Vec<CompilationUnit> = Vec::new();
    let mut i: usize = 0;
    assert(unit_views(units@) =~= Seq::<UnitView>::empty());
    while i < targets.len()
        invariant
            i <= targets.len(),
            unit_views(units@) == units_of(targets@, i as int),
        decreases targets.len() - i,
    {
        let target = &targets[i];
        if is_listed(&target.crate_types, "bin") {
            let kind = if is_listed(&target.kinds, "example") {
                TargetKind::Example
            } else {
                TargetKind::Binary
            };
            let ghost before = unit_views(units@);
            units.push(
                CompilationUnit {
                    name: target.name.clone(),
                    ident: normalize(target.name.as_str()),
                    kind,
                },
            );
            assert(unit_views(units@) =~= before.push(unit_of(*target)));
        }
        i += 1;
    }
    if units.len() == 0 {
        Err(Error::BinaryNotFound)
    } else {
        Ok(units)
    }
}

/// The length of the part of `s` that stands before its first `.` or `-`.
pub open spec fn name_len(s: Seq<char>, from: int) -> nat
    decreases s.len() - from,
{
    if from < 0 || from >= s.len() || s[from] == '.' || s[from] == '-' {
        0
    } else {
        1 + name_len(s, from + 1)
    }
}

/// The crate that a file belongs to, read off its path: the part of its file
/// stem that stands before the first `.` or `-`. A path without a file name
/// belongs to the crate without a name.
pub open spec fn crate_name_of(path: Seq<char>) -> Seq<char> {
    match file_stem_of(path) {
        Some(stem) => stem.subrange(0, name_len(stem, 0) as int),
        None => Seq::empty(),
    }
}

/// The crate that a file belongs to.
pub fn crate_name_chars(path: &Vec<char>) -> (name: Vec<char>)
    ensures
        name@ == crate_name_of(path@),
{
    let mut name: Vec<char> = Vec::new();
    match file_name_chars(path) {
        Some(file) => {
            let stem = stem_chars(&file);
            let mut i: usize = 0;
            while i < stem.len() && stem[i] != '.' && stem[i] != '-'
                invariant
                    i <= stem.len(),
                    name@ == stem@.subrange(0, i as int),
                    name_len(stem@, 0) == i + name_len(stem@, i as int),
                decreases stem.len() - i,
            {
                name.push(stem[i]);
                i += 1;
                assert(stem@.subrange(0, i as int) == stem@.subrange(0, i - 1).push(stem@[i - 1]));
            }
            name
        },
        None => {
            assert(name@ =~= Seq::<char>::empty());
            name
        },
    }
}

/// Get the binary name from path.
pub fn crate_name(path: &str) -> (name: String)
    ensures
        name@ == crate_name_of(path@),
{
    string_from(&crate_name_chars(&chars_of(path)))
}

/// Whether a file holds the LLVM IR of a codegen unit that has not been
/// integrated: its stem names a codegen unit and not an integrated one, and
/// its extension is `ll`.
pub open spec fn is_ir_file(path: Seq<char>) -> bool {
    match file_stem_of(path) {
        Some(stem) => occurs_in("rcgu"@, stem) && !occurs_in("-ci"@, stem) && extension_of(path)
            == Some("ll"@),
        None => false,
    }
}

/// Whether a file holds the LLVM IR of a codegen unit that has not been
/// integrated.
pub fn ir_file(path: &str) -> (r: bool)
    ensures
        r == is_ir_file(path@),
{
    let p = chars_of(path);
    match file_name_chars(&p) {
        Some(file) => {
            let stem = stem_chars(&file);
            let is_ll = match extension_chars(&file) {
                Some(ext) => same(&ext, &chars_of("ll")),
                None => false,
            };
            find(&stem, &chars_of("rcgu")).is_some() && !find(&stem, &chars_of("-ci")).is_some()
                && is_ll
        },
        None => false,
    }
}

/// The files among `files` that hold LLVM IR to integrate, in order.
pub fn ir_files(files: &Vec<String>) -> (out: Vec<String>)
    ensures
        out.deep_view() == kept(files.deep_view(), |p: Seq<char>| is_ir_file(p), files.len() as int),
        forall|p: Seq<char>|
            out.deep_view().contains(p) <==> is_ir_file(p) && files.deep_view().contains(p),
{
    let ghost keep = |p: Seq<char>| is_ir_file(p);
    let mut out: Vec<String> = Vec::new();
    let mut i: usize = 0;
    assert(out.deep_view() =~= Seq::<Seq<char>>::empty());
    while i < files.len()
        invariant
            i <= files.len(),
            keep == |p: Seq<char>| is_ir_file(p),
            out.deep_view() == kept(files.deep_view(), keep, i as int),
        decreases files.len() - i,
    {
        let path = files[i].as_str();
        assert(path@ == files.deep_view()[i as int]);
        if ir_file(path) {
            let ghost before = out.deep_view();
            out.push(files[i].clone());
            assert(out.deep_view() =~= before.push(path@));
        }
        i += 1;
    }
    proof {
        assert forall|p: Seq<char>|
            out.deep_view().contains(p) <==> is_ir_file(p) && files.deep_view().contains(p) by {
            lemma_kept(files.deep_view(), keep, files.len() as int, p);
            if files.deep_view().contains(p) {
                let i = choose|i: int| 0 <= i < files.deep_view().len() && files.deep_view()[i] == p;
                assert(0 <= i < files.len() && files.deep_view()[i] == p);
            }
        }
    }
    out
}

/// Whether one of the first `upto` files belongs to the crate `name`.
pub open spec fn names_crate(files: Seq<Seq<char>>, upto: int, name: Seq<char>) -> bool {
    exists|i: int| 0 <= i < upto && i < files.len() && crate_name_of(#[trigger] files[i]) == name
}

/// The crates that have changed: the crate names of the stale files that are
/// names of compilation units, each once.
pub fn stale_crate_names(stale_files: &Vec<String>, crate_names: &Vec<String>) -> (out: Vec<String>)
    ensures
        out.deep_view().no_duplicates(),
        forall|name: Seq<char>|
            out.deep_view().contains(name) <==> crate_names.deep_view().contains(name)
                && names_crate(stale_files.deep_view(), stale_files.len() as int, name),
{
    let ghost files = stale_files.deep_view();
    let mut out: Vec<String> = Vec::new();
    let mut i: usize = 0;
    while i < stale_files.len()
        invariant
            i <= stale_files.len(),
            files == stale_files.deep_view(),
            out.deep_view().no_duplicates(),
            forall|name: Seq<char>|
                out.deep_view().contains(name) <==> crate_names.deep_view().contains(name)
                    && names_crate(files, i as int, name),
        decreases stale_files.len() - i,
    {
        let name = crate_name(stale_files[i].as_str());
        assert(name@ == crate_name_of(files[i as int]));
        let ghost before = out.deep_view();
        let listed = is_listed(crate_names, name.as_str());
        let known = is_listed(&out, name.as_str());
        let ghost added = name@;
        if listed && !known {
            out.push(name);
            assert(out.deep_view() =~= before.push(added));
        }
        proof {
            let after = out.deep_view();
            assert forall|n: Seq<char>|
                after.contains(n) <==> crate_names.deep_view().contains(n) && names_crate(
                    files,
                    i + 1,
                    n,
                ) by {
                if names_crate(files, i as int, n) {
                    let j = choose|j: int|
                        0 <= j < i && j < files.len() && crate_name_of(#[trigger] files[j]) == n;
                    assert(0 <= j < i + 1 && crate_name_of(files[j]) == n);
                }
                if names_crate(files, i + 1, n) {
                    let j = choose|j: int|
                        0 <= j < i + 1 && j < files.len() && crate_name_of(#[trigger] files[j])
                            == n;
                    if j < i {
                        assert(names_crate(files, i as int, n));
                    } else {
                        assert(n == added);
                    }
                }
                if n == added {
                    assert(crate_name_of(files[i as int]) == n);
                    assert(names_crate(files, i + 1, n));
                }
                if listed && !known {
                    if after.contains(n) {
                        let k = choose|k: int| 0 <= k < after.len() && after[k] == n;
                        if k < before.len() {
                            assert(before[k] == n);
                            assert(before.contains(n));
                        }
                    }
                    if before.contains(n) {
                        let k = choose|k: int| 0 <= k < before.len() && before[k] == n;
                        assert(after[k] == n);
                    }
                    assert(after[before.len() as int] == added);
                }
            }
        }
        i += 1;
    }
    out
}

} // verus!
