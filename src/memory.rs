//! A backend that keeps clusters, buckets and documents in memory.
use vstd::prelude::*;
use crate::envelope::{ServiceError, SuccessfulResponse, WebResponse};
use crate::model::{
    key_of, str_eq, strings_view, Bucket, BucketForm, Cluster, Document, DocumentModel,
    SearchParameters,
};
use crate::ranking::{
    by_distance, docs_view, insert_ranked, nearest, page, pairs_view, ranked, scope_view, select,
    window,
};
use crate::similarity::distance;
use crate::text::document_text_score;

verus! {

/// The natural key of a stored document: bucket and content hash.
pub type DocKey = (Seq<char>, Seq<char>);

/// A document is accepted for storage when it names its bucket and its hash.
pub open spec fn valid_document(d: DocumentModel) -> bool {
    d.bucket_uuid.len() > 0 && d.document_md5_hash.len() > 0
}

/// What is said of a document that cannot be stored: the first key field that
/// is empty.
pub open spec fn validation_message(d: DocumentModel) -> Seq<char> {
    if d.bucket_uuid.len() == 0 {
        "bucket_uuid"@
    } else {
        "document_md5_hash"@
    }
}

/// Adds `name` at the end of `v` unless it is there already.
fn add_name(v: &mut Vec<String>, name: &str)
    ensures
        strings_view(old(v)@).contains(name@) ==> strings_view(final(v)@) == strings_view(old(v)@),
        !strings_view(old(v)@).contains(name@) ==> strings_view(final(v)@) == strings_view(
            old(v)@,
        ).push(name@),
{
    let mut i: usize = 0;
    while i < v.len()
        invariant
            i <= v@.len(),
            forall|j: int| 0 <= j < i ==> strings_view(v@)[j] != name@,
        decreases v@.len() - i,
    {
        if str_eq(v[i].as_str(), name) {
            assert(strings_view(v@)[i as int] == name@);
            return;
        }
        i = i + 1;
    }
    let ghost prev = v@;
    v.push(name.to_owned());
    assert(strings_view(v@) =~= strings_view(prev).push(name@));
}

/// Removes every occurrence of `name` from `v`, keeping the order of the rest.
fn drop_name(v: &mut Vec<String>, name: &str)
    ensures
        strings_view(final(v)@) == strings_view(old(v)@).filter(|x: Seq<char>| x != name@),
{
    let ghost keep = |x: Seq<char>| x != name@;
    let mut r: Vec<String> = Vec::new();
    let mut i: usize = 0;
    while i < v.len()
        invariant
            i <= v@.len(),
            keep == (|x: Seq<char>| x != name@),
            strings_view(r@) == strings_view(v@.take(i as int)).filter(keep),
        decreases v@.len() - i,
    {
        let ghost prefix = strings_view(v@.take(i as int + 1));
        proof {
            assert(prefix.drop_last() =~= strings_view(v@.take(i as int)));
            assert(prefix.last() == v@[i as int]@);
            strings_view(v@.take(i as int)).lemma_filter_push(v@[i as int]@, keep);
            assert(prefix =~= strings_view(v@.take(i as int)).push(v@[i as int]@));
        }
        if !str_eq(v[i].as_str(), name) {
            let ghost prev = r@;
            r.push(v[i].clone());
            assert(strings_view(r@) =~= strings_view(prev).push(v@[i as int]@));
        }
        i = i + 1;
    }
    assert(v@.take(v@.len() as int) =~= v@);
    *v = r;
}

/// The index of `name` in `v`, if it is there.
fn name_position(v: &Vec<String>, name: &str) -> (r: Option<usize>)
    ensures
        match r {
            Some(i) => i < v@.len() && strings_view(v@)[i as int] == name@,
            None => !strings_view(v@).contains(name@),
        },
{
    let mut i: usize = 0;
    while i < v.len()
        invariant
            i <= v@.len(),
            forall|j: int| 0 <= j < i ==> strings_view(v@)[j] != name@,
        decreases v@.len() - i,
    {
        if str_eq(v[i].as_str(), name) {
            return Some(i);
        }
        i = i + 1;
    }
    None
}

fn validate(doc: &Document) -> (r: Option<ServiceError>)
    ensures
        valid_document(doc@) ==> r is None,
        !valid_document(doc@) ==> r is Some && r->Some_0 is Validation
            && r->Some_0->Validation_0@ == validation_message(doc@),
{
    if doc.bucket_uuid.unicode_len() == 0 {
        Some(ServiceError::Validation("bucket_uuid".to_owned()))
    } else if doc.document_md5_hash.unicode_len() == 0 {
        Some(ServiceError::Validation("document_md5_hash".to_owned()))
    } else {
        None
    }
}

/// A backend that keeps its documents in memory, in order of first creation.
pub struct MemoryContext {
    documents: Vec<Document>,
    index: Ghost<Map<DocKey, DocumentModel>>,
    clusters: Vec<String>,
    buckets: Vec<String>,
}

impl MemoryContext {
    /// The stored documents, by key.
    pub closed spec fn documents(&self) -> Map<DocKey, DocumentModel> {
        self.index@
    }

    /// The identifiers of the known clusters, in order of creation.
    pub closed spec fn cluster_ids(&self) -> Seq<Seq<char>> {
        strings_view(self.clusters@)
    }

    /// The identifiers of the known buckets, in order of creation.
    pub closed spec fn bucket_ids(&self) -> Seq<Seq<char>> {
        strings_view(self.buckets@)
    }

    /// The stored documents, in store order.
    pub closed spec fn entries(&self) -> Seq<DocumentModel> {
        docs_view(self.documents@)
    }

    pub closed spec fn wf(&self) -> bool {
        &&& forall|i: int|
            0 <= i < self.documents@.len() ==> self.index@.contains_key(
                key_of(#[trigger] self.documents@[i]@),
            ) && self.index@[key_of(self.documents@[i]@)] == self.documents@[i]@
        &&& forall|k: DocKey| #[trigger]
            self.index@.contains_key(k) ==> exists|i: int|
                0 <= i < self.documents@.len() && key_of(#[trigger] self.documents@[i]@) == k
        &&& forall|i: int, j: int|
            0 <= i < j < self.documents@.len() ==> key_of(#[trigger] self.documents@[i]@) != key_of(
                #[trigger] self.documents@[j]@,
            )
    }

    /// The entries in store order are exactly the stored documents, each once.
    pub proof fn lemma_entries_are_documents(&self)
        requires
            self.wf(),
        ensures
            forall|i: int|
                0 <= i < self.entries().len() ==> self.documents().contains_key(
                    key_of(#[trigger] self.entries()[i]),
                ) && self.documents()[key_of(self.entries()[i])] == self.entries()[i],
            forall|k: DocKey| #[trigger]
                self.documents().contains_key(k) ==> exists|i: int|
                    0 <= i < self.entries().len() && key_of(#[trigger] self.entries()[i]) == k,
            forall|i: int, j: int|
                0 <= i < j < self.entries().len() ==> key_of(#[trigger] self.entries()[i])
                    != key_of(#[trigger] self.entries()[j]),
    {
        assert forall|i: int| 0 <= i < self.entries().len() implies self.documents().contains_key(
            key_of(#[trigger] self.entries()[i]),
        ) && self.documents()[key_of(self.entries()[i])] == self.entries()[i] by {
            assert(self.entries()[i] == self.documents@[i]@);
        }
        assert forall|k: DocKey| #[trigger] self.documents().contains_key(k) implies exists|i: int|
            0 <= i < self.entries().len() && key_of(#[trigger] self.entries()[i]) == k by {
            let i = choose|i: int| 0 <= i < self.documents@.len() && key_of(#[trigger] self.documents@[i]@) == k;
            assert(self.entries()[i] == self.documents@[i]@);
        }
        assert forall|i: int, j: int| 0 <= i < j < self.entries().len() implies key_of(
            #[trigger] self.entries()[i],
        ) != key_of(#[trigger] self.entries()[j]) by {
            assert(self.entries()[i] == self.documents@[i]@);
            assert(self.entries()[j] == self.documents@[j]@);
        }
    }

    /// An empty store.
    pub fn new() -> (r: MemoryContext)
        ensures
            r.wf(),
            r.documents() == Map::<DocKey, DocumentModel>::empty(),
            r.entries().len() == 0,
            r.cluster_ids().len() == 0,
            r.bucket_ids().len() == 0,
    {
        MemoryContext {
            documents: Vec::new(),
            index: Ghost(Map::empty()),
            clusters: Vec::new(),
            buckets: Vec::new(),
        }
    }

    /// The stored documents in scope on which a text query scores `rank`, in
    /// store order.
    fn collect(&self, scope: Option<&str>, q: &str, rank: u8) -> (r: Vec<Document>)
        ensures
            docs_view(r@) == select(self.entries(), scope_view(scope), q@, rank as int),
    {
        let mut r: Vec<Document> = Vec::new();
        let mut i: usize = 0;
        while i < self.documents.len()
            invariant
                i <= self.documents@.len(),
                docs_view(r@) == select(
                    docs_view(self.documents@.take(i as int)),
                    scope_view(scope),
                    q@,
                    rank as int,
                ),
            decreases self.documents@.len() - i,
        {
            let d = &self.documents[i];
            let in_scope = match scope {
                Some(b) => str_eq(d.bucket_uuid.as_str(), b),
                None => true,
            };
            let hit = document_text_score(d, q) == rank;
            let ghost prefix = docs_view(self.documents@.take(i as int + 1));
            proof {
                assert(prefix.drop_last() =~= docs_view(self.documents@.take(i as int)));
                assert(prefix.last() == d@);
            }
            if in_scope && hit {
                let ghost prev = r@;
                r.push(d.duplicate());
                assert(docs_view(r@) =~= docs_view(prev).push(d@));
            }
            i = i + 1;
        }
        assert(self.documents@.take(self.documents@.len() as int) =~= self.documents@);
        r
    }

    /// The stored documents that a text query matches, best score first.
    fn rank_all(&self, scope: Option<&str>, q: &str) -> (r: Vec<Document>)
        ensures
            docs_view(r@) == ranked(self.entries(), scope_view(scope), q@),
    {
        let mut r = self.collect(scope, q, 3);
        let mut second = self.collect(scope, q, 2);
        let mut third = self.collect(scope, q, 1);
        let ghost (a, b, c) = (r@, second@, third@);
        r.append(&mut second);
        r.append(&mut third);
        assert(docs_view(r@) =~= docs_view(a) + docs_view(b) + docs_view(c));
        r
    }

    /// The stored documents in scope, most similar fuzzy digest first.
    fn rank_similar(&self, scope: Option<&str>, q: &str) -> (r: Vec<Document>)
        ensures
            docs_view(r@) == nearest(self.entries(), scope_view(scope), q@),
    {
        let mut pairs: Vec<(usize, Document)> = Vec::new();
        let mut i: usize = 0;
        while i < self.documents.len()
            invariant
                i <= self.documents@.len(),
                pairs_view(pairs@) == by_distance(
                    docs_view(self.documents@.take(i as int)),
                    scope_view(scope),
                    q@,
                ),
            decreases self.documents@.len() - i,
        {
            let d = &self.documents[i];
            let ghost prefix = docs_view(self.documents@.take(i as int + 1));
            proof {
                assert(prefix.drop_last() =~= docs_view(self.documents@.take(i as int)));
                assert(prefix.last() == d@);
            }
            let wanted = match scope {
                Some(b) => str_eq(d.bucket_uuid.as_str(), b),
                None => true,
            };
            if wanted {
                let dist = distance(d.document_ssdeep_hash.as_str(), q);
                insert_ranked(&mut pairs, dist, d.duplicate());
            }
            i = i + 1;
        }
        assert(self.documents@.take(self.documents@.len() as int) =~= self.documents@);
        let ghost ranked_pairs = pairs_view(pairs@);
        let mut r: Vec<Document> = Vec::new();
        let mut j: usize = 0;
        while j < pairs.len()
            invariant
                j <= pairs@.len(),
                ranked_pairs == pairs_view(pairs@),
                docs_view(r@) == ranked_pairs.take(j as int).map_values(
                    |p: (int, DocumentModel)| p.1,
                ),
            decreases pairs@.len() - j,
        {
            let ghost prev = r@;
            r.push(pairs[j].1.duplicate());
            assert(docs_view(r@) =~= docs_view(prev).push(ranked_pairs[j as int].1));
            assert(ranked_pairs.take(j + 1).map_values(|p: (int, DocumentModel)| p.1)
                =~= ranked_pairs.take(j as int).map_values(|p: (int, DocumentModel)| p.1).push(
                ranked_pairs[j as int].1,
            ));
            j = j + 1;
        }
        assert(ranked_pairs.take(pairs@.len() as int) =~= ranked_pairs);
        r
    }

    /// The stored documents that a text query matches in any bucket, best score
    /// first and in store order among equal scores, within the requested window.
    pub fn search_from_all(&self, s_params: &SearchParameters) -> (r: WebResponse<Vec<Document>>)
        ensures
            r is Ok,
            docs_view(r->Ok_0@) == page(
                ranked(self.entries(), None, s_params.query@),
                s_params.result_offset as int,
                s_params.result_size as int,
            ),
    {
        let all = self.rank_all(None, s_params.query.as_str());
        Ok(window(&all, s_params.result_offset, s_params.result_size))
    }

    /// As [`Self::search_from_all`], within one bucket.
    pub fn search_from_target(&self, bucket_id: &str, s_params: &SearchParameters) -> (r: WebResponse<Vec<Document>>)
        ensures
            r is Ok,
            docs_view(r->Ok_0@) == page(
                ranked(self.entries(), Some(bucket_id@), s_params.query@),
                s_params.result_offset as int,
                s_params.result_size as int,
            ),
    {
        let all = self.rank_all(Some(bucket_id), s_params.query.as_str());
        Ok(window(&all, s_params.result_offset, s_params.result_size))
    }

    /// The stored documents of any bucket ranked by similarity: nearest fuzzy
    /// digest (by edit distance to the query digest) first, in store order
    /// among equal distances, within the requested window.
    pub fn similar_from_all(&self, s_params: &SearchParameters) -> (r: WebResponse<Vec<Document>>)
        ensures
            r is Ok,
            docs_view(r->Ok_0@) == page(
                nearest(self.entries(), None, s_params.query@),
                s_params.result_offset as int,
                s_params.result_size as int,
            ),
    {
        let all = self.rank_similar(None, s_params.query.as_str());
        Ok(window(&all, s_params.result_offset, s_params.result_size))
    }

    /// As [`Self::similar_from_all`], within one bucket.
    pub fn similar_from_target(&self, bucket_id: &str, s_params: &SearchParameters) -> (r: WebResponse<Vec<Document>>)
        ensures
            r is Ok,
            docs_view(r->Ok_0@) == page(
                nearest(self.entries(), Some(bucket_id@), s_params.query@),
                s_params.result_offset as int,
                s_params.result_size as int,
            ),
    {
        let all = self.rank_similar(Some(bucket_id), s_params.query.as_str());
        Ok(window(&all, s_params.result_offset, s_params.result_size))
    }

    /// Where the document with the given key is stored.
    fn position(&self, bucket_id: &str, doc_id: &str) -> (r: Option<usize>)
        requires
            self.wf(),
        ensures
            match r {
                Some(i) => i < self.documents@.len() && key_of(self.documents@[i as int]@) == (
                bucket_id@,
                doc_id@,
                ) && self.index@.contains_key((bucket_id@, doc_id@))
                    && self.index@[(bucket_id@, doc_id@)] == self.documents@[i as int]@,
                None => !self.index@.contains_key((bucket_id@, doc_id@)) && forall|j: int|
                    0 <= j < self.documents@.len() ==> key_of(#[trigger] self.documents@[j]@) != (
                    bucket_id@,
                    doc_id@,
                    ),
            },
    {
        let mut i: usize = 0;
        while i < self.documents.len()
            invariant
                self.wf(),
                i <= self.documents@.len(),
                forall|j: int|
                    0 <= j < i ==> key_of(#[trigger] self.documents@[j]@) != (bucket_id@, doc_id@),
            decreases self.documents@.len() - i,
        {
            if self.documents[i].has_key(bucket_id, doc_id) {
                return Some(i);
            }
            i = i + 1;
        }
        None
    }

    /// One cluster per known identifier, in order of creation. This backend
    /// reports no health or status.
    pub fn get_all_clusters(&self) -> (r: WebResponse<Vec<Cluster>>)
        ensures
            r is Ok,
            r->Ok_0@.len() == self.cluster_ids().len(),
            forall|i: int|
                0 <= i < self.cluster_ids().len() ==> (#[trigger] r->Ok_0@[i]).cluster_id@
                    == self.cluster_ids()[i] && r->Ok_0@[i].health@.len() == 0
                    && r->Ok_0@[i].status@.len() == 0,
    {
        let mut r: Vec<Cluster> = Vec::new();
        let mut i: usize = 0;
        while i < self.clusters.len()
            invariant
                i <= self.clusters@.len(),
                r@.len() == i,
                forall|j: int|
                    0 <= j < i ==> (#[trigger] r@[j]).cluster_id@ == self.clusters@[j]@
                        && r@[j].health@.len() == 0 && r@[j].status@.len() == 0,
            decreases self.clusters@.len() - i,
        {
            r.push(Cluster { cluster_id: self.clusters[i].clone(), health: String::new(), status: String::new() });
            i = i + 1;
        }
        Ok(r)
    }

    /// The cluster with the given identifier, or `NotFound` naming it.
    pub fn get_cluster(&self, cluster_id: &str) -> (r: WebResponse<Cluster>)
        ensures
            self.cluster_ids().contains(cluster_id@) ==> r is Ok && r->Ok_0.cluster_id@ == cluster_id@
                && r->Ok_0.health@.len() == 0 && r->Ok_0.status@.len() == 0,
            !self.cluster_ids().contains(cluster_id@) ==> r is Err && r->Err_0 is NotFound
                && r->Err_0->NotFound_0@ == cluster_id@,
    {
        match name_position(&self.clusters, cluster_id) {
            Some(_) => Ok(
                Cluster { cluster_id: cluster_id.to_owned(), health: String::new(), status: String::new() },
            ),
            None => Err(ServiceError::NotFound(cluster_id.to_owned())),
        }
    }

    /// Records the cluster; one already known is left as it is.
    pub fn create_cluster(&mut self, cluster_id: &str) -> (r: WebResponse<SuccessfulResponse>)
        requires
            old(self).wf(),
        ensures
            final(self).wf(),
            r is Ok && r->Ok_0.code == 200,
            old(self).cluster_ids().contains(cluster_id@) ==> final(self).cluster_ids() == old(
                self,
            ).cluster_ids(),
            !old(self).cluster_ids().contains(cluster_id@) ==> final(self).cluster_ids() == old(
                self,
            ).cluster_ids().push(cluster_id@),
            final(self).bucket_ids() == old(self).bucket_ids(),
            final(self).documents() == old(self).documents(),
            final(self).entries() == old(self).entries(),
    {
        add_name(&mut self.clusters, cluster_id);
        assert(self.documents@ == old(self).documents@ && self.index@ == old(self).index@);
        Ok(SuccessfulResponse::ok_response("Ok"))
    }

    /// Forgets the cluster; forgetting an unknown one succeeds and changes nothing.
    pub fn delete_cluster(&mut self, cluster_id: &str) -> (r: WebResponse<SuccessfulResponse>)
        requires
            old(self).wf(),
        ensures
            final(self).wf(),
            r is Ok && r->Ok_0.code == 200,
            final(self).cluster_ids() == old(self).cluster_ids().filter(|x: Seq<char>| x != cluster_id@),
            final(self).bucket_ids() == old(self).bucket_ids(),
            final(self).documents() == old(self).documents(),
            final(self).entries() == old(self).entries(),
    {
        drop_name(&mut self.clusters, cluster_id);
        assert(self.documents@ == old(self).documents@ && self.index@ == old(self).index@);
        Ok(SuccessfulResponse::ok_response("Ok"))
    }

    /// One bucket per known identifier, in order of creation, with no path and
    /// not marked as the default.
    pub fn get_all_buckets(&self) -> (r: WebResponse<Vec<Bucket>>)
        ensures
            r is Ok,
            r->Ok_0@.len() == self.bucket_ids().len(),
            forall|i: int|
                0 <= i < self.bucket_ids().len() ==> (#[trigger] r->Ok_0@[i]).bucket_uuid@
                    == self.bucket_ids()[i] && r->Ok_0@[i].bucket_path@.len() == 0
                    && !r->Ok_0@[i].is_default,
    {
        let mut r: Vec<Bucket> = Vec::new();
        let mut i: usize = 0;
        while i < self.buckets.len()
            invariant
                i <= self.buckets@.len(),
                r@.len() == i,
                forall|j: int|
                    0 <= j < i ==> (#[trigger] r@[j]).bucket_uuid@ == self.buckets@[j]@
                        && r@[j].bucket_path@.len() == 0 && !r@[j].is_default,
            decreases self.buckets@.len() - i,
        {
            r.push(Bucket { bucket_uuid: self.buckets[i].clone(), bucket_path: String::new(), is_default: false });
            i = i + 1;
        }
        Ok(r)
    }

    /// The bucket with the given identifier, or `NotFound` naming it.
    pub fn get_bucket(&self, bucket_id: &str) -> (r: WebResponse<Bucket>)
        ensures
            self.bucket_ids().contains(bucket_id@) ==> r is Ok && r->Ok_0.bucket_uuid@ == bucket_id@
                && r->Ok_0.bucket_path@.len() == 0 && !r->Ok_0.is_default,
            !self.bucket_ids().contains(bucket_id@) ==> r is Err && r->Err_0 is NotFound
                && r->Err_0->NotFound_0@ == bucket_id@,
    {
        match name_position(&self.buckets, bucket_id) {
            Some(_) => Ok(
                Bucket { bucket_uuid: bucket_id.to_owned(), bucket_path: String::new(), is_default: false },
            ),
            None => Err(ServiceError::NotFound(bucket_id.to_owned())),
        }
    }

    /// Records the bucket named by the form; one already known is left as it is.
    pub fn create_bucket(&mut self, bucket_form: &BucketForm) -> (r: WebResponse<SuccessfulResponse>)
        requires
            old(self).wf(),
        ensures
            final(self).wf(),
            r is Ok && r->Ok_0.code == 200,
            old(self).bucket_ids().contains(bucket_form.bucket_name@) ==> final(self).bucket_ids()
                == old(self).bucket_ids(),
            !old(self).bucket_ids().contains(bucket_form.bucket_name@) ==> final(self).bucket_ids()
                == old(self).bucket_ids().push(bucket_form.bucket_name@),
            final(self).cluster_ids() == old(self).cluster_ids(),
            final(self).documents() == old(self).documents(),
            final(self).entries() == old(self).entries(),
    {
        add_name(&mut self.buckets, bucket_form.bucket_name.as_str());
        assert(self.documents@ == old(self).documents@ && self.index@ == old(self).index@);
        Ok(SuccessfulResponse::ok_response("Ok"))
    }

    /// Forgets the bucket; its documents stay stored. Forgetting an unknown
    /// bucket succeeds and changes nothing.
    pub fn delete_bucket(&mut self, bucket_id: &str) -> (r: WebResponse<SuccessfulResponse>)
        requires
            old(self).wf(),
        ensures
            final(self).wf(),
            r is Ok && r->Ok_0.code == 200,
            final(self).bucket_ids() == old(self).bucket_ids().filter(|x: Seq<char>| x != bucket_id@),
            final(self).cluster_ids() == old(self).cluster_ids(),
            final(self).documents() == old(self).documents(),
            final(self).entries() == old(self).entries(),
    {
        drop_name(&mut self.buckets, bucket_id);
        assert(self.documents@ == old(self).documents@ && self.index@ == old(self).index@);
        Ok(SuccessfulResponse::ok_response("Ok"))
    }

    /// The document with the given key, or `NotFound` naming the document.
    pub fn get_document(&self, bucket_id: &str, doc_id: &str) -> (r: WebResponse<Document>)
        requires
            self.wf(),
        ensures
            self.documents().contains_key((bucket_id@, doc_id@)) ==> r is Ok && r->Ok_0@
                == self.documents()[(bucket_id@, doc_id@)],
            !self.documents().contains_key((bucket_id@, doc_id@)) ==> r is Err && r->Err_0 is NotFound
                && r->Err_0->NotFound_0@ == doc_id@,
    {
        match self.position(bucket_id, doc_id) {
            Some(i) => Ok(self.documents[i].duplicate()),
            None => Err(ServiceError::NotFound(doc_id.to_owned())),
        }
    }

    /// Stores the document; one already stored under its key is replaced.
    pub fn create_document(&mut self, doc: &Document) -> (r: WebResponse<SuccessfulResponse>)
        requires
            old(self).wf(),
        ensures
            final(self).wf(),
            final(self).cluster_ids() == old(self).cluster_ids(),
            final(self).bucket_ids() == old(self).bucket_ids(),
            valid_document(doc@) ==> r is Ok && r->Ok_0.code == 200 && final(self).documents()
                == old(self).documents().insert(key_of(doc@), doc@),
            !valid_document(doc@) ==> r is Err && r->Err_0 is Validation
                && r->Err_0->Validation_0@ == validation_message(doc@) && final(self).documents()
                == old(self).documents(),
    {
        if let Some(e) = validate(doc) {
            return Err(e);
        }
        self.store(doc);
        Ok(SuccessfulResponse::ok_response("Ok"))
    }

    /// Replaces the stored document with the same key. A document that is not
    /// stored is not created: the call fails with `NotFound` and changes nothing.
    pub fn update_document(&mut self, doc: &Document) -> (r: WebResponse<SuccessfulResponse>)
        requires
            old(self).wf(),
        ensures
            final(self).wf(),
            final(self).cluster_ids() == old(self).cluster_ids(),
            final(self).bucket_ids() == old(self).bucket_ids(),
            valid_document(doc@) && old(self).documents().contains_key(key_of(doc@)) ==> r is Ok
                && r->Ok_0.code == 200 && final(self).documents() == old(self).documents().insert(
                key_of(doc@),
                doc@,
            ),
            valid_document(doc@) && !old(self).documents().contains_key(key_of(doc@)) ==> r is Err
                && r->Err_0 is NotFound && r->Err_0->NotFound_0@ == doc@.document_md5_hash
                && final(self).documents() == old(self).documents(),
            !valid_document(doc@) ==> r is Err && r->Err_0 is Validation
                && r->Err_0->Validation_0@ == validation_message(doc@) && final(self).documents()
                == old(self).documents(),
    {
        if let Some(e) = validate(doc) {
            return Err(e);
        }
        match self.position(doc.bucket_uuid.as_str(), doc.document_md5_hash.as_str()) {
            None => Err(ServiceError::NotFound(doc.document_md5_hash.clone())),
            Some(_) => {
                self.store(doc);
                Ok(SuccessfulResponse::ok_response("Ok"))
            },
        }
    }

    fn store(&mut self, doc: &Document)
        requires
            old(self).wf(),
        ensures
            final(self).wf(),
            final(self).cluster_ids() == old(self).cluster_ids(),
            final(self).bucket_ids() == old(self).bucket_ids(),
            final(self).documents() == old(self).documents().insert(key_of(doc@), doc@),
    {
        let k = Ghost(key_of(doc@));
        match self.position(doc.bucket_uuid.as_str(), doc.document_md5_hash.as_str()) {
            Some(i) => {
                let ghost before = self.documents@;
                self.documents.set(i, doc.duplicate());
                self.index = Ghost(self.index@.insert(k@, doc@));
                assert forall|j: int| 0 <= j < self.documents@.len() implies self.index@.contains_key(
                    key_of(#[trigger] self.documents@[j]@),
                ) && self.index@[key_of(self.documents@[j]@)] == self.documents@[j]@ by {
                    if j != i {
                        assert(self.documents@[j] == before[j]);
                        if j < i {
                            assert(key_of(before[j]@) != key_of(before[i as int]@));
                        } else {
                            assert(key_of(before[i as int]@) != key_of(before[j]@));
                        }
                    }
                }
                assert forall|kk: DocKey| #[trigger] self.index@.contains_key(kk) implies exists|j: int|
                    0 <= j < self.documents@.len() && key_of(#[trigger] self.documents@[j]@) == kk by {
                    if kk == k@ {
                        assert(key_of(self.documents@[i as int]@) == kk);
                    } else {
                        let j = choose|j: int| 0 <= j < before.len() && key_of(#[trigger] before[j]@) == kk;
                        assert(j != i);
                        assert(self.documents@[j] == before[j]);
                    }
                }
                assert forall|a: int, b: int| 0 <= a < b < self.documents@.len() implies key_of(
                    #[trigger] self.documents@[a]@,
                ) != key_of(#[trigger] self.documents@[b]@) by {
                    assert(key_of(before[a]@) != key_of(before[b]@));
                    if a == i {
                        assert(self.documents@[b] == before[b]);
                    } else if b == i {
                        assert(self.documents@[a] == before[a]);
                    } else {
                        assert(self.documents@[a] == before[a]);
                        assert(self.documents@[b] == before[b]);
                    }
                }
            },
            None => {
                let ghost before = self.documents@;
                self.documents.push(doc.duplicate());
                self.index = Ghost(self.index@.insert(k@, doc@));
                let ghost n = before.len() as int;
                assert forall|j: int| 0 <= j < self.documents@.len() implies self.index@.contains_key(
                    key_of(#[trigger] self.documents@[j]@),
                ) && self.index@[key_of(self.documents@[j]@)] == self.documents@[j]@ by {
                    if j < n {
                        assert(self.documents@[j] == before[j]);
                    }
                }
                assert forall|kk: DocKey| #[trigger] self.index@.contains_key(kk) implies exists|j: int|
                    0 <= j < self.documents@.len() && key_of(#[trigger] self.documents@[j]@) == kk by {
                    if kk == k@ {
                        assert(key_of(self.documents@[n]@) == kk);
                    } else {
                        let j = choose|j: int| 0 <= j < before.len() && key_of(#[trigger] before[j]@) == kk;
                        assert(self.documents@[j] == before[j]);
                    }
                }
                assert forall|a: int, b: int| 0 <= a < b < self.documents@.len() implies key_of(
                    #[trigger] self.documents@[a]@,
                ) != key_of(#[trigger] self.documents@[b]@) by {
                    assert(self.documents@[a] == before[a]);
                    if b < n {
                        assert(self.documents@[b] == before[b]);
                        assert(key_of(before[a]@) != key_of(before[b]@));
                    }
                }
            },
        }
    }

    /// Removes the document with the given key. Removing one that is not stored
    /// succeeds and changes nothing.
    pub fn delete_document(&mut self, bucket_id: &str, doc_id: &str) -> (r: WebResponse<SuccessfulResponse>)
        requires
            old(self).wf(),
        ensures
            final(self).wf(),
            final(self).cluster_ids() == old(self).cluster_ids(),
            final(self).bucket_ids() == old(self).bucket_ids(),
            r is Ok && r->Ok_0.code == 200,
            final(self).documents() == old(self).documents().remove((bucket_id@, doc_id@)),
    {
        let k = Ghost((bucket_id@, doc_id@));
        match self.position(bucket_id, doc_id) {
            None => {
                assert(self.index@.remove(k@) =~= self.index@);
            },
            Some(i) => {
                let ghost before = self.documents@;
                let _ = self.documents.remove(i);
                self.index = Ghost(self.index@.remove(k@));
                assert forall|j: int| 0 <= j < self.documents@.len() implies self.index@.contains_key(
                    key_of(#[trigger] self.documents@[j]@),
                ) && self.index@[key_of(self.documents@[j]@)] == self.documents@[j]@ by {
                    if j < i {
                        assert(self.documents@[j] == before[j]);
                        assert(key_of(before[j]@) != key_of(before[i as int]@));
                    } else {
                        assert(self.documents@[j] == before[j + 1]);
                        assert(key_of(before[i as int]@) != key_of(before[j + 1]@));
                    }
                }
                assert forall|kk: DocKey| #[trigger] self.index@.contains_key(kk) implies exists|j: int|
                    0 <= j < self.documents@.len() && key_of(#[trigger] self.documents@[j]@) == kk by {
                    let j = choose|j: int| 0 <= j < before.len() && key_of(#[trigger] before[j]@) == kk;
                    assert(j != i);
                    if j < i {
                        assert(self.documents@[j] == before[j]);
                    } else {
                        assert(self.documents@[j - 1] == before[j]);
                    }
                }
                assert forall|a: int, b: int| 0 <= a < b < self.documents@.len() implies key_of(
                    #[trigger] self.documents@[a]@,
                ) != key_of(#[trigger] self.documents@[b]@) by {
                    let a2 = if a < i { a } else { a + 1 };
                    let b2 = if b < i { b } else { b + 1 };
                    assert(self.documents@[a] == before[a2]);
                    assert(self.documents@[b] == before[b2]);
                    assert(key_of(before[a2]@) != key_of(before[b2]@));
                }
            },
        }
        Ok(SuccessfulResponse::ok_response("Ok"))
    }
}

/// Round trip: after a valid document is created, the document stored under
/// its key equals it in every canonical field.
pub proof fn lemma_create_then_get(before: MemoryContext, after: MemoryContext, d: DocumentModel)
    requires
        valid_document(d),
        valid_document(d) ==> after.documents() == before.documents().insert(key_of(d), d),
    ensures
        after.documents().contains_key(key_of(d)),
        after.documents()[key_of(d)] == d,
{
}

/// Update overwrites: create `d`, then update with `d2` of the same key; the
/// document stored under the key is `d2`, and no longer `d` where they differ.
pub proof fn lemma_update_overwrites(
    c0: MemoryContext,
    c1: MemoryContext,
    c2: MemoryContext,
    d: DocumentModel,
    d2: DocumentModel,
)
    requires
        valid_document(d),
        valid_document(d2),
        key_of(d2) == key_of(d),
        valid_document(d) ==> c1.documents() == c0.documents().insert(key_of(d), d),
        valid_document(d2) && c1.documents().contains_key(key_of(d2)) ==> c2.documents()
            == c1.documents().insert(key_of(d2), d2),
    ensures
        c2.documents().contains_key(key_of(d)),
        c2.documents()[key_of(d)] == d2,
        d2 != d ==> c2.documents()[key_of(d)] != d,
{
}

/// Delete is idempotent: deleting a key that is not stored changes nothing, and
/// deleting the same key twice leaves what deleting it once left.
pub proof fn lemma_delete_idempotent(c0: MemoryContext, c1: MemoryContext, c2: MemoryContext, k: DocKey)
    requires
        c1.documents() == c0.documents().remove(k),
        c2.documents() == c1.documents().remove(k),
    ensures
        c2.documents() == c1.documents(),
        !c0.documents().contains_key(k) ==> c1.documents() == c0.documents(),
        !c1.documents().contains_key(k),
{
    assert(c1.documents().remove(k) =~= c1.documents());
    if !c0.documents().contains_key(k) {
        assert(c0.documents().remove(k) =~= c0.documents());
    }
}

} // verus!
