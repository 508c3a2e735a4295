//! Which documents a search returns, and in what order.
use vstd::prelude::*;
use crate::model::{Document, DocumentModel};
use crate::similarity::edit_distance;
use crate::text::text_score;

verus! {

pub open spec fn docs_view(v: Seq<Document>) -> Seq<DocumentModel> {
    v.map_values(|d: Document| d@)
}

/// Whether a document lies in the bucket a search is limited to, if any.
pub open spec fn in_scope(d: DocumentModel, scope: Option<Seq<char>>) -> bool {
    scope is None || d.bucket_uuid == scope.unwrap()
}

/// The documents of `s` in scope on which a text query scores `rank`, in their
/// order in `s`.
pub open spec fn select(s: Seq<DocumentModel>, scope: Option<Seq<char>>, q: Seq<char>, rank: int) -> Seq<
    DocumentModel,
>
    decreases s.len(),
{
    if s.len() == 0 {
        Seq::empty()
    } else {
        let rest = select(s.drop_last(), scope, q, rank);
        if in_scope(s.last(), scope) && text_score(s.last(), q) == rank {
            rest.push(s.last())
        } else {
            rest
        }
    }
}

/// The documents of `s` that a text query matches, best score first and in
/// their order in `s` among equal scores.
pub open spec fn ranked(s: Seq<DocumentModel>, scope: Option<Seq<char>>, q: Seq<char>) -> Seq<DocumentModel> {
    select(s, scope, q, 3) + select(s, scope, q, 2) + select(s, scope, q, 1)
}

/// `s` with `x` placed after every item whose distance is at most its own and
/// before the rest.
pub open spec fn insert_by_distance(s: Seq<(int, DocumentModel)>, x: (int, DocumentModel)) -> Seq<
    (int, DocumentModel),
>
    decreases s.len(),
{
    if s.len() == 0 || s.last().0 <= x.0 {
        s.push(x)
    } else {
        insert_by_distance(s.drop_last(), x).push(s.last())
    }
}

/// The documents of `s` in scope, each with the edit distance from its fuzzy
/// digest to the query digest, nearest first and in their order in `s` among
/// equal distances.
pub open spec fn by_distance(s: Seq<DocumentModel>, scope: Option<Seq<char>>, q: Seq<char>) -> Seq<
    (int, DocumentModel),
>
    decreases s.len(),
{
    if s.len() == 0 {
        Seq::empty()
    } else {
        let rest = by_distance(s.drop_last(), scope, q);
        if in_scope(s.last(), scope) {
            insert_by_distance(rest, (edit_distance(s.last().document_ssdeep_hash, q), s.last()))
        } else {
            rest
        }
    }
}

/// The documents of `s` in scope, most similar digest first.
pub open spec fn nearest(s: Seq<DocumentModel>, scope: Option<Seq<char>>, q: Seq<char>) -> Seq<DocumentModel> {
    by_distance(s, scope, q).map_values(|p: (int, DocumentModel)| p.1)
}

pub open spec fn pairs_view(v: Seq<(usize, Document)>) -> Seq<(int, DocumentModel)> {
    v.map_values(|p: (usize, Document)| (p.0 as int, p.1@))
}

proof fn lemma_insert_at(s: Seq<(int, DocumentModel)>, x: (int, DocumentModel), p: int)
    requires
        0 <= p <= s.len(),
        forall|t: int| p <= t < s.len() ==> #[trigger] s[t].0 > x.0,
        p == 0 || s[p - 1].0 <= x.0,
    ensures
        insert_by_distance(s, x) == s.insert(p, x),
    decreases s.len(),
{
    if s.len() == p {
        assert(s.push(x) =~= s.insert(p, x));
    } else {
        assert(s.last().0 > x.0);
        lemma_insert_at(s.drop_last(), x, p);
        assert(s.drop_last().insert(p, x).push(s.last()) =~= s.insert(p, x));
    }
}

/// Places the document among `v` by its distance, as [`insert_by_distance`] does.
pub(crate) fn insert_ranked(v: &mut Vec<(usize, Document)>, dist: usize, d: Document)
    ensures
        pairs_view(final(v)@) == insert_by_distance(pairs_view(old(v)@), (dist as int, d@)),
{
    let mut p: usize = v.len();
    while p > 0 && v[p - 1].0 > dist
        invariant
            p <= v@.len(),
            forall|t: int| p <= t < v@.len() ==> #[trigger] v@[t].0 > dist,
        decreases p,
    {
        p = p - 1;
    }
    let ghost before = pairs_view(v@);
    proof {
        lemma_insert_at(before, (dist as int, d@), p as int);
    }
    v.insert(p, (dist, d));
    assert(pairs_view(v@) =~= before.insert(p as int, (dist as int, d@)));
}

/// The window of `s` that begins at `offset` and holds at most `size` items.
pub open spec fn page<A>(s: Seq<A>, offset: int, size: int) -> Seq<A> {
    let lo = if offset < s.len() { offset } else { s.len() as int };
    let hi = if offset + size < s.len() { offset + size } else { s.len() as int };
    s.subrange(lo, hi)
}

pub open spec fn scope_view(scope: Option<&str>) -> Option<Seq<char>> {
    match scope {
        Some(b) => Some(b@),
        None => None,
    }
}

/// The documents of `v` from `offset` on, at most `size` of them.
pub(crate) fn window(v: &Vec<Document>, offset: usize, size: usize) -> (r: Vec<Document>)
    ensures
        docs_view(r@) == page(docs_view(v@), offset as int, size as int),
{
    let n = v.len();
    let lo: usize = if offset < n { offset } else { n };
    let hi: usize = if size < n - lo { lo + size } else { n };
    let mut r: Vec<Document> = Vec::new();
    let mut j: usize = lo;
    while j < hi
        invariant
            n == v@.len(),
            lo <= j <= hi <= n,
            docs_view(r@) == docs_view(v@).subrange(lo as int, j as int),
        decreases hi - j,
    {
        let ghost prev = r@;
        r.push(v[j].duplicate());
        assert(docs_view(r@) =~= docs_view(prev).push(v@[j as int]@));
        assert(docs_view(v@).subrange(lo as int, j + 1) =~= docs_view(v@).subrange(lo as int, j as int).push(
            v@[j as int]@,
        ));
        j = j + 1;
    }
    r
}

} // verus!
