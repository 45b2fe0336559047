//! Relative paths inside a catalog: a path is walked component by
//! component, and nothing in it can lead out of the catalog's directory.

use crate::catalog::CatalogError;
use crate::text;
use vstd::prelude::*;
use vstd::string::*;

verus! {

/// What stands between the separators of a path.
pub open spec fn segments(raw: Seq<char>) -> Seq<Seq<char>> {
    text::pieces(raw, '/')
}

/// A segment that names something; empty segments and single dots do not.
pub open spec fn names_something(segment: Seq<char>) -> bool {
    segment.len() > 0 && segment != "."@
}

/// A relative path that starts with a name and never steps up.
pub open spec fn is_catalog_path(raw: Seq<char>) -> bool {
    &&& raw.len() > 0
    &&& raw[0] != '/'
    &&& segments(raw)[0] != "."@
    &&& forall|i: int| 0 <= i < segments(raw).len() ==> #[trigger] segments(raw)[i] != ".."@
}

/// The names along a path.
pub open spec fn components(raw: Seq<char>) -> Seq<Seq<char>> {
    segments(raw).filter(|segment: Seq<char>| names_something(segment))
}

/// A name that stays in the directory it is looked up in.
pub open spec fn is_plain_name(name: Seq<char>) -> bool {
    &&& name.len() > 0
    &&& name != "."@
    &&& name != ".."@
    &&& !name.contains('/')
}

proof fn lemma_segments(raw: Seq<char>)
    ensures
        segments(raw).len() > 0,
        forall|i: int| 0 <= i < segments(raw).len() ==> !(#[trigger] segments(raw)[i]).contains('/'),
    decreases raw.len(),
{
    if raw.len() > 0 {
        let front = segments(raw.drop_last());
        lemma_segments(raw.drop_last());
        assert forall|i: int| 0 <= i < segments(raw).len() implies !(
        #[trigger] segments(raw)[i]).contains('/') by {
            if i < front.len() - 1 {
                assert(segments(raw)[i] == front[i]);
            } else if raw.last() == '/' {
                if i < front.len() {
                    assert(segments(raw)[i] == front[i]);
                }
            } else {
                let last = front.last();
                assert(segments(raw)[i] == last.push(raw.last()));
                assert(!last.contains('/'));
                if last.push(raw.last()).contains('/') {
                    let k = choose|k: int|
                        0 <= k < last.len() + 1 && last.push(raw.last())[k] == '/';
                    assert(k < last.len() && last[k] == '/');
                }
            }
        }
    }
}

/// Every name along an accepted path is plain, so walking it downwards from
/// a directory never leaves that directory.
pub proof fn law_components_stay_inside(raw: Seq<char>, i: int)
    requires
        is_catalog_path(raw),
        0 <= i < components(raw).len(),
    ensures
        is_plain_name(components(raw)[i]),
{
    lemma_segments(raw);
    let keep = |segment: Seq<char>| names_something(segment);
    lemma_filtered(segments(raw), keep, i);
    let at = choose|at: int|
        0 <= at < segments(raw).len() && #[trigger] segments(raw)[at] == components(raw)[i];
    assert(segments(raw)[at] != ".."@);
}

proof fn lemma_filtered<A>(s: Seq<A>, keep: spec_fn(A) -> bool, i: int)
    requires
        0 <= i < s.filter(keep).len(),
    ensures
        keep(s.filter(keep)[i]),
        exists|at: int| 0 <= at < s.len() && #[trigger] s[at] == s.filter(keep)[i],
    decreases s.len(),
{
    reveal(Seq::filter);
    if s.len() > 0 {
        let front = s.drop_last();
        if i < front.filter(keep).len() {
            lemma_filtered(front, keep, i);
            let at = choose|at: int|
                0 <= at < front.len() && #[trigger] front[at] == front.filter(keep)[i];
            assert(s[at] == s.filter(keep)[i]);
        } else {
            assert(s[s.len() - 1] == s.filter(keep)[i]);
        }
    }
}

/// The names along a path, or a refusal of the path.
pub fn catalog_path_components(raw: &str) -> (r: Result<Vec<String>, CatalogError>)
    ensures
        is_catalog_path(raw@) ==> r is Ok && text::texts(r->Ok_0@) == components(raw@),
        !is_catalog_path(raw@) ==> r == Err::<Vec<String>, CatalogError>(CatalogError::Malformed),
{
    if raw.is_empty() || raw.get_char(0) == '/' {
        return Err(CatalogError::Malformed);
    }
    let parts = text::split_pieces(raw, '/');
    proof {
        lemma_segments(raw@);
    }
    let ghost keep = |segment: Seq<char>| names_something(segment);
    let ghost all = segments(raw@);
    assert(all.len() == parts@.len());
    assert(all[0] == parts@[0]@);
    if text::same(parts[0].as_str(), ".") {
        return Err(CatalogError::Malformed);
    }
    let mut names: Vec<String> = Vec::new();
    assert(text::texts(names@) =~= all.take(0).filter(keep)) by {
        reveal(Seq::filter);
    }
    let mut i: usize = 0;
    while i < parts.len()
        invariant
            all == segments(raw@),
            all == text::texts(parts@),
            keep == (|segment: Seq<char>| names_something(segment)),
            i <= parts@.len() == all.len(),
            forall|j: int| 0 <= j < i ==> #[trigger] all[j] != ".."@,
            text::texts(names@) == all.take(i as int).filter(keep),
        decreases parts@.len() - i,
    {
        let part = parts[i].as_str();
        assert(all[i as int] == part@);
        if text::same(part, "..") {
            assert(segments(raw@)[i as int] == ".."@);
            return Err(CatalogError::Malformed);
        }
        proof {
            assert(all.take(i + 1).drop_last() =~= all.take(i as int));
            reveal(Seq::filter);
        }
        if !part.is_empty() && !text::same(part, ".") {
            let ghost had = names@;
            names.push(part.to_owned());
            assert(text::texts(names@) =~= text::texts(had).push(part@));
        }
        i = i + 1;
    }
    assert(all.take(i as int) =~= all);
    Ok(names)
}

} // verus!
