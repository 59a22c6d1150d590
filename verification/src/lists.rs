//! Lists of texts.

use vstd::prelude::*;

verus! {

/// The first index from `from` on at which `text` stands in `all`, or the
/// length of `all` where it stands nowhere.
pub open spec fn position_of(all: Seq<Seq<char>>, text: Seq<char>, from: int) -> int
    decreases all.len() - from,
{
    if from < 0 || from >= all.len() {
        all.len() as int
    } else if all[from] == text {
        from
    } else {
        position_of(all, text, from + 1)
    }
}

/// `all` without the first occurrence of `text`.
pub open spec fn without_first(all: Seq<Seq<char>>, text: Seq<char>) -> Seq<Seq<char>> {
    let at = position_of(all, text, 0);
    if at < all.len() {
        all.remove(at)
    } else {
        all
    }
}

/// What `position_of` finds: the first occurrence from `from` on.
pub proof fn lemma_position_of(all: Seq<Seq<char>>, text: Seq<char>, from: int)
    requires
        0 <= from <= all.len(),
    ensures
        from <= position_of(all, text, from) <= all.len(),
        position_of(all, text, from) < all.len() ==> all[position_of(all, text, from)] == text,
        forall|j: int| from <= j < position_of(all, text, from) ==> all[j] != text,
    decreases all.len() - from,
{
    if from < all.len() && all[from] != text {
        lemma_position_of(all, text, from + 1);
    }
}

/// A text that stands in a list has a first occurrence.
pub proof fn lemma_position_found(all: Seq<Seq<char>>, text: Seq<char>)
    ensures
        all.contains(text) <==> position_of(all, text, 0) < all.len(),
{
    lemma_position_of(all, text, 0);
    if all.contains(text) {
        let i = choose|i: int| 0 <= i < all.len() && all[i] == text;
        assert(all[i] == text);
    }
}

/// Appends `items` to `out`.
pub fn append_all(out: &mut Vec<String>, items: Vec<String>)
    ensures
        final(out).deep_view() == old(out).deep_view() + items.deep_view(),
{
    let ghost before = out.deep_view();
    let ghost all = items.deep_view();
    let mut items = items;
    let ghost n = out.len();
    out.append(&mut items);
    assert(out.deep_view() =~= before + all);
}

/// Appends copies of `all[from..to]` to `out`.
pub fn copy_range(out: &mut Vec<String>, all: &Vec<String>, from: usize, to: usize)
    requires
        from <= to <= all.len(),
    ensures
        final(out).deep_view() == old(out).deep_view() + all.deep_view().subrange(
            from as int,
            to as int,
        ),
{
    let mut i: usize = from;
    assert(out.deep_view() =~= old(out).deep_view() + all.deep_view().subrange(
        from as int,
        from as int,
    ));
    while i < to
        invariant
            from <= i <= to <= all.len(),
            out.deep_view() == old(out).deep_view() + all.deep_view().subrange(
                from as int,
                i as int,
            ),
        decreases to - i,
    {
        let ghost before = out.deep_view();
        out.push(all[i].clone());
        i += 1;
        assert(out.deep_view() =~= before.push(all@[i - 1]@));
        assert(all.deep_view().subrange(from as int, i as int) =~= all.deep_view().subrange(
            from as int,
            i - 1,
        ).push(all@[i - 1]@));
        assert(out.deep_view() =~= old(out).deep_view() + all.deep_view().subrange(
            from as int,
            i as int,
        ));
    }
}

/// The texts among the first `upto` of `all` for which `keep` holds, in
/// order.
pub open spec fn kept(all: Seq<Seq<char>>, keep: spec_fn(Seq<char>) -> bool, upto: int) -> Seq<
    Seq<char>,
>
    decreases upto,
{
    if upto <= 0 || upto > all.len() {
        Seq::empty()
    } else if keep(all[upto - 1]) {
        kept(all, keep, upto - 1).push(all[upto - 1])
    } else {
        kept(all, keep, upto - 1)
    }
}

/// What `kept` holds: exactly the texts of the range for which `keep` holds.
pub proof fn lemma_kept(
    all: Seq<Seq<char>>,
    keep: spec_fn(Seq<char>) -> bool,
    upto: int,
    text: Seq<char>,
)
    requires
        0 <= upto <= all.len(),
    ensures
        kept(all, keep, upto).contains(text) <==> keep(text) && exists|i: int|
            0 <= i < upto && all[i] == text,
    decreases upto,
{
    if upto > 0 {
        lemma_kept(all, keep, upto - 1, text);
        let rest = kept(all, keep, upto - 1);
        let last = all[upto - 1];
        if keep(last) {
            assert(kept(all, keep, upto) == rest.push(last));
            if rest.push(last).contains(text) {
                let k = choose|k: int| 0 <= k < rest.push(last).len() && rest.push(last)[k] == text;
                if k < rest.len() {
                    assert(rest.contains(text));
                }
            }
            if rest.contains(text) {
                let k = choose|k: int| 0 <= k < rest.len() && rest[k] == text;
                assert(rest.push(last)[k] == text);
            }
            if last == text {
                assert(rest.push(last)[rest.len() as int] == text);
            }
        }
    }
}

} // verus!
