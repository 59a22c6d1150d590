//! Choosing the integrated binary to run.
//!
//! The target directory holds the binaries of the package and, beside each,
//! its integrated counterpart, whose name has `-ci` in its stem.

use crate::error::{Error, ErrorView};
use crate::format::{join, joined};
use crate::paths::{file_name_chars, file_name_of, file_stem_of, stem_chars};
use crate::text::{chars_of, find, occurs_in, same, string_from, text_view};
use crate::lists::kept;
use vstd::prelude::*;

verus! {

/// Whether a binary is an integrated one: `-ci` stands in its file stem.
pub open spec fn is_integrated(path: Seq<char>) -> bool {
    match file_stem_of(path) {
        Some(stem) => occurs_in("-ci"@, stem),
        None => false,
    }
}

/// The integrated binaries among `binaries`, in order.
pub open spec fn integrated_among(binaries: Seq<Seq<char>>) -> Seq<Seq<char>> {
    kept(binaries, |p: Seq<char>| is_integrated(p), binaries.len() as int)
}

/// The binaries among `binaries` that are not integrated, in order.
pub open spec fn plain_among(binaries: Seq<Seq<char>>) -> Seq<Seq<char>> {
    kept(binaries, |p: Seq<char>| !is_integrated(p), binaries.len() as int)
}

/// The file stems of the first `upto` paths, in order; a path without a file
/// name has none.
pub open spec fn stems_of(paths: Seq<Seq<char>>, upto: int) -> Seq<Seq<char>>
    decreases upto,
{
    if upto <= 0 || upto > paths.len() {
        Seq::empty()
    } else {
        match file_stem_of(paths[upto - 1]) {
            Some(stem) => stems_of(paths, upto - 1).push(stem),
            None => stems_of(paths, upto - 1),
        }
    }
}

/// The names of the binaries that can be asked for, with commas between
/// them.
pub open spec fn available(plain_ones: Seq<Seq<char>>) -> Seq<char> {
    joined(stems_of(plain_ones, plain_ones.len() as int), ", "@)
}

/// The integrated binary that stands at the place of the binary named
/// `name`, looking from place `at` on: binaries and integrated binaries are
/// paired in order. A binary without a file name ends the search with an
/// error.
pub open spec fn paired(
    integrated: Seq<Seq<char>>,
    plain_ones: Seq<Seq<char>>,
    name: Seq<char>,
    at: int,
) -> Result<Seq<char>, ErrorView>
    decreases plain_ones.len() - at,
{
    if at < 0 || at >= plain_ones.len() || at >= integrated.len() {
        Err(ErrorView::BinaryNotAvailable(name, available(plain_ones)))
    } else {
        match file_name_of(plain_ones[at]) {
            None => Err(ErrorView::FileName(plain_ones[at])),
            Some(file) => if file == name {
                Ok(integrated[at])
            } else {
                paired(integrated, plain_ones, name, at + 1)
            },
        }
    }
}

/// The integrated binary to run: the one paired with the binary asked for;
/// or, where none is asked for, the only one there is.
pub open spec fn selected(binaries: Seq<Seq<char>>, name: Option<Seq<char>>) -> Result<
    Seq<char>,
    ErrorView,
> {
    let integrated = integrated_among(binaries);
    let plain_ones = plain_among(binaries);
    if plain_ones.len() == 0 {
        Err(ErrorView::BinaryNotFound)
    } else if integrated.len() == 0 {
        Err(ErrorView::IntegratedBinaryNotFound)
    } else {
        match name {
            Some(name) => paired(integrated, plain_ones, name, 0),
            None => if integrated.len() == 1 {
                Ok(integrated[0])
            } else {
                Err(ErrorView::BinaryNotDetermine(available(plain_ones)))
            },
        }
    }
}

/// Whether a binary is an integrated one.
pub fn integrated(path: &str) -> (r: bool)
    ensures
        r == is_integrated(path@),
{
    match file_name_chars(&chars_of(path)) {
        Some(file) => find(&stem_chars(&file), &chars_of("-ci")).is_some(),
        None => false,
    }
}

fn split_binaries(binaries: &Vec<String>) -> (r: (Vec<String>, Vec<String>))
    ensures
        r.0.deep_view() == integrated_among(binaries.deep_view()),
        r.1.deep_view() == plain_among(binaries.deep_view()),
{
    let ghost all = binaries.deep_view();
    let ghost yes = |p: Seq<char>| is_integrated(p);
    let ghost no = |p: Seq<char>| !is_integrated(p);
    let mut with_ci: Vec<String> = Vec::new();
    let mut plain: Vec<String> = Vec::new();
    let mut i: usize = 0;
    assert(with_ci.deep_view() =~= Seq::<Seq<char>>::empty());
    assert(plain.deep_view() =~= Seq::<Seq<char>>::empty());
    while i < binaries.len()
        invariant
            i <= binaries.len(),
            all == binaries.deep_view(),
            yes == |p: Seq<char>| is_integrated(p),
            no == |p: Seq<char>| !is_integrated(p),
            with_ci.deep_view() == kept(all, yes, i as int),
            plain.deep_view() == kept(all, no, i as int),
        decreases binaries.len() - i,
    {
        let path = binaries[i].as_str();
        assert(path@ == all[i as int]);
        if integrated(path) {
            let ghost before = with_ci.deep_view();
            with_ci.push(binaries[i].clone());
            assert(with_ci.deep_view() =~= before.push(path@));
        } else {
            let ghost before = plain.deep_view();
            plain.push(binaries[i].clone());
            assert(plain.deep_view() =~= before.push(path@));
        }
        i += 1;
    }
    (with_ci, plain)
}

fn available_names(plain_ones: &Vec<String>) -> (out: String)
    ensures
        out@ == available(plain_ones.deep_view()),
{
    let mut stems: Vec<String> = Vec::new();
    let mut i: usize = 0;
    assert(stems.deep_view() =~= Seq::<Seq<char>>::empty());
    while i < plain_ones.len()
        invariant
            i <= plain_ones.len(),
            stems.deep_view() == stems_of(plain_ones.deep_view(), i as int),
        decreases plain_ones.len() - i,
    {
        let path = chars_of(plain_ones[i].as_str());
        assert(path@ == plain_ones.deep_view()[i as int]);
        match file_name_chars(&path) {
            Some(file) => {
                let ghost before = stems.deep_view();
                let stem = stem_chars(&file);
                stems.push(string_from(&stem));
                assert(stems.deep_view() =~= before.push(stem@));
            },
            None => {},
        }
        i += 1;
    }
    join(&stems, ", ")
}

/// Chooses the integrated binary to run among the executable files of the
/// target directory.
#[verifier::loop_isolation(false)]
pub fn select_binary(binaries: &Vec<String>, binary_name: &Option<String>) -> (r: Result<
    String,
    Error,
>)
    ensures
        match selected(binaries.deep_view(), text_view(*binary_name)) {
            Ok(path) => r matches Ok(p) && p@ == path,
            Err(e) => r matches Err(x) && x@ == e,
        },
{
    let (with_ci, plain) = split_binaries(binaries);
    if plain.len() == 0 {
        return Err(Error::BinaryNotFound);
    }
    if with_ci.len() == 0 {
        return Err(Error::IntegratedBinaryNotFound);
    }
    match binary_name {
        Some(name) => {
            let wanted = chars_of(name.as_str());
            let mut i: usize = 0;
            while i < plain.len() && i < with_ci.len()
                invariant
                    i <= plain.len(),
                    i <= with_ci.len(),
                    wanted@ == name@,
                    paired(with_ci.deep_view(), plain.deep_view(), name@, 0) == paired(
                        with_ci.deep_view(),
                        plain.deep_view(),
                        name@,
                        i as int,
                    ),
                decreases plain.len() - i,
            {
                let path = chars_of(plain[i].as_str());
                assert(path@ == plain.deep_view()[i as int]);
                match file_name_chars(&path) {
                    Some(file) => {
                        if same(&file, &wanted) {
                            assert(with_ci@[i as int]@ == with_ci.deep_view()[i as int]);
                            return Ok(with_ci[i].clone());
                        }
                    },
                    None => {
                        return Err(Error::FileName(string_from(&path)));
                    },
                }
                i += 1;
            }
            Err(Error::BinaryNotAvailable(name.clone(), available_names(&plain)))
        },
        None => {
            if with_ci.len() == 1 {
                assert(with_ci@[0]@ == with_ci.deep_view()[0]);
                Ok(with_ci[0].clone())
            } else {
                Err(Error::BinaryNotDetermine(available_names(&plain)))
            }
        },
    }
}

} // verus!
