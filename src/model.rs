//! The canonical shapes of documents, buckets, clusters and search requests.
use vstd::prelude::*;

verus! {

/// Abstract value of a [`Document`]: every canonical field as a mathematical value.
pub struct DocumentModel {
    pub bucket_uuid: Seq<char>,
    pub bucket_path: Seq<char>,
    pub document_name: Seq<char>,
    pub document_path: Seq<char>,
    pub document_size: u64,
    pub document_type: Seq<char>,
    pub document_extension: Seq<char>,
    pub document_permissions: u32,
    pub document_created: Seq<char>,
    pub document_modified: Seq<char>,
    pub document_md5_hash: Seq<char>,
    pub document_ssdeep_hash: Seq<char>,
    pub entity_data: Seq<char>,
    pub entity_keywords: Seq<Seq<char>>,
}

/// The natural key of a document: its bucket and its content hash.
pub open spec fn key_of(d: DocumentModel) -> (Seq<char>, Seq<char>) {
    (d.bucket_uuid, d.document_md5_hash)
}

pub open spec fn strings_view(v: Seq<String>) -> Seq<Seq<char>> {
    v.map_values(|s: String| s@)
}

/// The unit of storage and search.
#[derive(Debug)]
pub struct Document {
    pub bucket_uuid: String,
    pub bucket_path: String,
    pub document_name: String,
    pub document_path: String,
    pub document_size: u64,
    pub document_type: String,
    pub document_extension: String,
    pub document_permissions: u32,
    pub document_created: String,
    pub document_modified: String,
    pub document_md5_hash: String,
    pub document_ssdeep_hash: String,
    pub entity_data: String,
    pub entity_keywords: Vec<String>,
}

impl View for Document {
    type V = DocumentModel;

    open spec fn view(&self) -> DocumentModel {
        DocumentModel {
            bucket_uuid: self.bucket_uuid@,
            bucket_path: self.bucket_path@,
            document_name: self.document_name@,
            document_path: self.document_path@,
            document_size: self.document_size,
            document_type: self.document_type@,
            document_extension: self.document_extension@,
            document_permissions: self.document_permissions,
            document_created: self.document_created@,
            document_modified: self.document_modified@,
            document_md5_hash: self.document_md5_hash@,
            document_ssdeep_hash: self.document_ssdeep_hash@,
            entity_data: self.entity_data@,
            entity_keywords: strings_view(self.entity_keywords@),
        }
    }
}

/// A copy of a list of strings with the same contents.
pub fn copy_strings(v: &Vec<String>) -> (r: Vec<String>)
    ensures
        strings_view(r@) == strings_view(v@),
{
    let mut r: Vec<String> = Vec::new();
    let mut i: usize = 0;
    while i < v.len()
        invariant
            i <= v.len(),
            strings_view(r@) == strings_view(v@.take(i as int)),
        decreases v.len() - i,
    {
        let ghost prev = r@;
        let s = v[i].clone();
        r.push(s);
        assert(v@.take(i as int + 1) == v@.take(i as int).push(v@[i as int]));
        assert(strings_view(r@) =~= strings_view(prev).push(v@[i as int]@));
        assert(strings_view(v@.take(i as int + 1)) =~= strings_view(v@.take(i as int)).push(
            v@[i as int]@,
        ));
        i = i + 1;
    }
    assert(v@.take(v.len() as int) == v@);
    r
}

impl Document {
    /// A copy of the document with every canonical field equal.
    pub fn duplicate(&self) -> (r: Document)
        ensures
            r@ == self@,
    {
        Document {
            bucket_uuid: self.bucket_uuid.clone(),
            bucket_path: self.bucket_path.clone(),
            document_name: self.document_name.clone(),
            document_path: self.document_path.clone(),
            document_size: self.document_size,
            document_type: self.document_type.clone(),
            document_extension: self.document_extension.clone(),
            document_permissions: self.document_permissions,
            document_created: self.document_created.clone(),
            document_modified: self.document_modified.clone(),
            document_md5_hash: self.document_md5_hash.clone(),
            document_ssdeep_hash: self.document_ssdeep_hash.clone(),
            entity_data: self.entity_data.clone(),
            entity_keywords: copy_strings(&self.entity_keywords),
        }
    }

    /// Whether this document has the given bucket and hash as its key.
    pub fn has_key(&self, bucket_id: &str, doc_id: &str) -> (r: bool)
        ensures
            r == (key_of(self@) == (bucket_id@, doc_id@)),
    {
        str_eq(self.bucket_uuid.as_str(), bucket_id) && str_eq(self.document_md5_hash.as_str(), doc_id)
    }
}

/// The default document: every text empty, every number zero, no keywords.
pub open spec fn default_document() -> DocumentModel {
    DocumentModel {
        bucket_uuid: Seq::empty(),
        bucket_path: Seq::empty(),
        document_name: Seq::empty(),
        document_path: Seq::empty(),
        document_size: 0,
        document_type: Seq::empty(),
        document_extension: Seq::empty(),
        document_permissions: 0,
        document_created: Seq::empty(),
        document_modified: Seq::empty(),
        document_md5_hash: Seq::empty(),
        document_ssdeep_hash: Seq::empty(),
        entity_data: Seq::empty(),
        entity_keywords: Seq::empty(),
    }
}

impl Default for Document {
    fn default() -> (r: Document)
        ensures
            r@ == default_document(),
    {
        let r = Document {
            bucket_uuid: String::new(),
            bucket_path: String::new(),
            document_name: String::new(),
            document_path: String::new(),
            document_size: 0,
            document_type: String::new(),
            document_extension: String::new(),
            document_permissions: 0,
            document_created: String::new(),
            document_modified: String::new(),
            document_md5_hash: String::new(),
            document_ssdeep_hash: String::new(),
            entity_data: String::new(),
            entity_keywords: Vec::new(),
        };
        assert(r@.entity_keywords =~= Seq::<Seq<char>>::empty());
        r
    }
}

/// A group of search-engine nodes, as the backend reports it.
#[derive(Debug)]
pub struct Cluster {
    pub cluster_id: String,
    pub health: String,
    pub status: String,
}

impl Default for Cluster {
    fn default() -> (r: Cluster)
        ensures
            r.cluster_id@ == Seq::<char>::empty(),
            r.health@ == Seq::<char>::empty(),
            r.status@ == Seq::<char>::empty(),
    {
        Cluster { cluster_id: String::new(), health: String::new(), status: String::new() }
    }
}

/// A named collection of documents.
#[derive(Debug)]
pub struct Bucket {
    pub bucket_uuid: String,
    pub bucket_path: String,
    pub is_default: bool,
}

impl Default for Bucket {
    fn default() -> (r: Bucket)
        ensures
            r.bucket_uuid@ == Seq::<char>::empty(),
            r.bucket_path@ == Seq::<char>::empty(),
            !r.is_default,
    {
        Bucket { bucket_uuid: String::new(), bucket_path: String::new(), is_default: false }
    }
}

/// The request to create a bucket.
#[derive(Debug)]
pub struct BucketForm {
    pub bucket_name: String,
}

/// A search request: the text (or, for similarity search, the fuzzy digest)
/// and the window of results wanted.
#[derive(Debug)]
pub struct SearchParameters {
    pub query: String,
    pub result_offset: usize,
    pub result_size: usize,
}

/// Character-by-character equality of two strings.
pub fn str_eq(a: &str, b: &str) -> (r: bool)
    ensures
        r == (a@ == b@),
{
    let n = a.unicode_len();
    if n != b.unicode_len() {
        return false;
    }
    let mut i: usize = 0;
    while i < n
        invariant
            n == a@.len(),
            n == b@.len(),
            i <= n,
            forall|j: int| 0 <= j < i ==> a@[j] == b@[j],
        decreases n - i,
    {
        if a.get_char(i) != b.get_char(i) {
            return false;
        }
        i = i + 1;
    }
    assert(a@ =~= b@);
    true
}

} // verus!
