//! The service interface that every backend implements, and the null backend.
use vstd::prelude::*;
use crate::envelope::{SuccessfulResponse, WebResponse};
use crate::memory::MemoryContext;
use crate::model::{default_document, Bucket, BucketForm, Cluster, Document, SearchParameters};

verus! {

/// The operations every backend offers. Callers depend on this trait alone and
/// never on which backend answers.
pub trait ServiceClient {
    spec fn ready(&self) -> bool;

    fn get_all_clusters(&self) -> WebResponse<Vec<Cluster>>
        requires
            self.ready(),
    ;

    fn get_cluster(&self, cluster_id: &str) -> WebResponse<Cluster>
        requires
            self.ready(),
    ;

    fn create_cluster(&mut self, cluster_id: &str) -> (r: WebResponse<SuccessfulResponse>)
        requires
            old(self).ready(),
        ensures
            final(self).ready(),
    ;

    fn delete_cluster(&mut self, cluster_id: &str) -> (r: WebResponse<SuccessfulResponse>)
        requires
            old(self).ready(),
        ensures
            final(self).ready(),
    ;

    fn get_all_buckets(&self) -> WebResponse<Vec<Bucket>>
        requires
            self.ready(),
    ;

    fn get_bucket(&self, bucket_id: &str) -> WebResponse<Bucket>
        requires
            self.ready(),
    ;

    fn delete_bucket(&mut self, bucket_id: &str) -> (r: WebResponse<SuccessfulResponse>)
        requires
            old(self).ready(),
        ensures
            final(self).ready(),
    ;

    fn create_bucket(&mut self, bucket_form: &BucketForm) -> (r: WebResponse<SuccessfulResponse>)
        requires
            old(self).ready(),
        ensures
            final(self).ready(),
    ;

    fn get_document(&self, bucket_id: &str, doc_id: &str) -> WebResponse<Document>
        requires
            self.ready(),
    ;

    fn create_document(&mut self, doc_form: &Document) -> (r: WebResponse<SuccessfulResponse>)
        requires
            old(self).ready(),
        ensures
            final(self).ready(),
    ;

    fn update_document(&mut self, doc_form: &Document) -> (r: WebResponse<SuccessfulResponse>)
        requires
            old(self).ready(),
        ensures
            final(self).ready(),
    ;

    /// Deleting a document that is not stored is no error.
    fn delete_document(&mut self, bucket_id: &str, doc_id: &str) -> (r: WebResponse<SuccessfulResponse>)
        requires
            old(self).ready(),
        ensures
            final(self).ready(),
            r is Ok,
    ;

    /// A search that finds nothing returns an empty list, not an error.
    fn search_from_all(&self, s_params: &SearchParameters) -> (r: WebResponse<Vec<Document>>)
        requires
            self.ready(),
        ensures
            r is Ok,
    ;

    fn search_from_target(&self, bucket_id: &str, s_params: &SearchParameters) -> (r: WebResponse<Vec<Document>>)
        requires
            self.ready(),
        ensures
            r is Ok,
    ;

    fn similar_from_all(&self, s_params: &SearchParameters) -> (r: WebResponse<Vec<Document>>)
        requires
            self.ready(),
        ensures
            r is Ok,
    ;

    fn similar_from_target(&self, bucket_id: &str, s_params: &SearchParameters) -> (r: WebResponse<Vec<Document>>)
        requires
            self.ready(),
        ensures
            r is Ok,
    ;
}

/// The null backend: it delegates nowhere. Every read returns an empty list or
/// a default value and every write is acknowledged.
pub struct OtherContext {}

impl OtherContext {
    pub fn new() -> (r: OtherContext) {
        OtherContext {}
    }
}

impl ServiceClient for OtherContext {
    open spec fn ready(&self) -> bool {
        true
    }

    fn get_all_clusters(&self) -> (r: WebResponse<Vec<Cluster>>)
        ensures
            r is Ok && r->Ok_0@.len() == 0,
    {
        Ok(Vec::new())
    }

    fn get_cluster(&self, _cluster_id: &str) -> (r: WebResponse<Cluster>)
        ensures
            r is Ok && r->Ok_0.cluster_id@.len() == 0 && r->Ok_0.health@.len() == 0
                && r->Ok_0.status@.len() == 0,
    {
        Ok(Cluster::default())
    }

    fn create_cluster(&mut self, _cluster_id: &str) -> (r: WebResponse<SuccessfulResponse>)
        ensures
            r is Ok && r->Ok_0.code == 200,
    {
        Ok(SuccessfulResponse::ok_response("Ok"))
    }

    fn delete_cluster(&mut self, _cluster_id: &str) -> (r: WebResponse<SuccessfulResponse>)
        ensures
            r is Ok && r->Ok_0.code == 200,
    {
        Ok(SuccessfulResponse::ok_response("Ok"))
    }

    fn get_all_buckets(&self) -> (r: WebResponse<Vec<Bucket>>)
        ensures
            r is Ok && r->Ok_0@.len() == 0,
    {
        Ok(Vec::new())
    }

    fn get_bucket(&self, _bucket_id: &str) -> (r: WebResponse<Bucket>)
        ensures
            r is Ok && r->Ok_0.bucket_uuid@.len() == 0 && r->Ok_0.bucket_path@.len() == 0
                && !r->Ok_0.is_default,
    {
        Ok(Bucket::default())
    }

    fn delete_bucket(&mut self, _bucket_id: &str) -> (r: WebResponse<SuccessfulResponse>)
        ensures
            r is Ok && r->Ok_0.code == 200,
    {
        Ok(SuccessfulResponse::ok_response("Ok"))
    }

    fn create_bucket(&mut self, _bucket_form: &BucketForm) -> (r: WebResponse<SuccessfulResponse>)
        ensures
            r is Ok && r->Ok_0.code == 200,
    {
        Ok(SuccessfulResponse::ok_response("Ok"))
    }

    fn get_document(&self, _bucket_id: &str, _doc_id: &str) -> (r: WebResponse<Document>)
        ensures
            r is Ok && r->Ok_0@ == default_document(),
    {
        Ok(Document::default())
    }

    fn create_document(&mut self, _doc_form: &Document) -> (r: WebResponse<SuccessfulResponse>)
        ensures
            r is Ok && r->Ok_0.code == 200,
    {
        Ok(SuccessfulResponse::ok_response("Ok"))
    }

    fn update_document(&mut self, _doc_form: &Document) -> (r: WebResponse<SuccessfulResponse>)
        ensures
            r is Ok && r->Ok_0.code == 200,
    {
        Ok(SuccessfulResponse::ok_response("Ok"))
    }

    fn delete_document(&mut self, _bucket_id: &str, _doc_id: &str) -> (r: WebResponse<SuccessfulResponse>)
        ensures
            r is Ok && r->Ok_0.code == 200,
    {
        Ok(SuccessfulResponse::ok_response("Ok"))
    }

    fn search_from_all(&self, _s_params: &SearchParameters) -> (r: WebResponse<Vec<Document>>)
        ensures
            r is Ok && r->Ok_0@.len() == 0,
    {
        Ok(Vec::new())
    }

    fn search_from_target(&self, _bucket_id: &str, _s_params: &SearchParameters) -> (r: WebResponse<Vec<Document>>)
        ensures
            r is Ok && r->Ok_0@.len() == 0,
    {
        Ok(Vec::new())
    }

    fn similar_from_all(&self, _s_params: &SearchParameters) -> (r: WebResponse<Vec<Document>>)
        ensures
            r is Ok && r->Ok_0@.len() == 0,
    {
        Ok(Vec::new())
    }

    fn similar_from_target(&self, _bucket_id: &str, _s_params: &SearchParameters) -> (r: WebResponse<Vec<Document>>)
        ensures
            r is Ok && r->Ok_0@.len() == 0,
    {
        Ok(Vec::new())
    }
}

impl ServiceClient for MemoryContext {
    open spec fn ready(&self) -> bool {
        self.wf()
    }

    fn get_all_clusters(&self) -> WebResponse<Vec<Cluster>> {
        MemoryContext::get_all_clusters(self)
    }

    fn get_cluster(&self, cluster_id: &str) -> WebResponse<Cluster> {
        MemoryContext::get_cluster(self, cluster_id)
    }

    fn create_cluster(&mut self, cluster_id: &str) -> WebResponse<SuccessfulResponse> {
        MemoryContext::create_cluster(self, cluster_id)
    }

    fn delete_cluster(&mut self, cluster_id: &str) -> WebResponse<SuccessfulResponse> {
        MemoryContext::delete_cluster(self, cluster_id)
    }

    fn get_all_buckets(&self) -> WebResponse<Vec<Bucket>> {
        MemoryContext::get_all_buckets(self)
    }

    fn get_bucket(&self, bucket_id: &str) -> WebResponse<Bucket> {
        MemoryContext::get_bucket(self, bucket_id)
    }

    fn delete_bucket(&mut self, bucket_id: &str) -> WebResponse<SuccessfulResponse> {
        MemoryContext::delete_bucket(self, bucket_id)
    }

    fn create_bucket(&mut self, bucket_form: &BucketForm) -> WebResponse<SuccessfulResponse> {
        MemoryContext::create_bucket(self, bucket_form)
    }

    fn get_document(&self, bucket_id: &str, doc_id: &str) -> WebResponse<Document> {
        MemoryContext::get_document(self, bucket_id, doc_id)
    }

    fn create_document(&mut self, doc_form: &Document) -> WebResponse<SuccessfulResponse> {
        MemoryContext::create_document(self, doc_form)
    }

    fn update_document(&mut self, doc_form: &Document) -> WebResponse<SuccessfulResponse> {
        MemoryContext::update_document(self, doc_form)
    }

    fn delete_document(&mut self, bucket_id: &str, doc_id: &str) -> WebResponse<SuccessfulResponse> {
        MemoryContext::delete_document(self, bucket_id, doc_id)
    }

    fn search_from_all(&self, s_params: &SearchParameters) -> WebResponse<Vec<Document>> {
        MemoryContext::search_from_all(self, s_params)
    }

    fn search_from_target(&self, bucket_id: &str, s_params: &SearchParameters) -> WebResponse<Vec<Document>> {
        MemoryContext::search_from_target(self, bucket_id, s_params)
    }

    fn similar_from_all(&self, s_params: &SearchParameters) -> WebResponse<Vec<Document>> {
        MemoryContext::similar_from_all(self, s_params)
    }

    fn similar_from_target(&self, bucket_id: &str, s_params: &SearchParameters) -> WebResponse<Vec<Document>> {
        MemoryContext::similar_from_target(self, bucket_id, s_params)
    }
}

} // verus!
