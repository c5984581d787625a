//! What the retrieval service answers.
use vstd::prelude::*;
use vstd::string::*;

verus! {

/// A document that was given to the service. The times are the bits of
/// doubles.
#[derive(Debug, Clone)]
pub struct DocumentMetadata {
    pub document_id: String,
    pub filename: String,
    pub document_type: String,
    pub file_size: u64,
    pub content_hash: String,
    pub created_at: u64,
    pub updated_at: u64,
    pub status: String,
    pub chunk_count: u32,
    pub error_message: Option<String>,
}

#[derive(Debug, Clone)]
pub struct DocumentListResponse {
    pub documents: Vec<DocumentMetadata>,
}

#[derive(Debug, Clone)]
pub struct DocumentTextResponse {
    pub document_id: String,
    pub text: String,
}

#[derive(Debug, Clone)]
pub struct KnowledgeBaseStatus {
    pub document_count: u32,
    pub chunk_count: u32,
    pub status: String,
}

#[derive(Debug, Clone)]
pub struct SearchResultMetadata {
    pub filename: String,
    pub document_type: String,
}

/// A passage that was found, with how well it fits: the bits of a double.
#[derive(Debug, Clone)]
pub struct SearchResultItem {
    pub chunk_id: String,
    pub score: u64,
    pub text: String,
    pub metadata: SearchResultMetadata,
}

/// The view of a passage.
pub struct ItemView {
    pub chunk_id: Seq<char>,
    pub score: u64,
    pub text: Seq<char>,
    pub filename: Seq<char>,
    pub document_type: Seq<char>,
}

impl SearchResultItem {
    pub open spec fn view(&self) -> ItemView {
        ItemView {
            chunk_id: self.chunk_id@,
            score: self.score,
            text: self.text@,
            filename: self.metadata.filename@,
            document_type: self.metadata.document_type@,
        }
    }
}

/// The views of a sequence of passages.
pub open spec fn item_views(items: Seq<SearchResultItem>) -> Seq<ItemView> {
    items.map_values(|i: SearchResultItem| i@)
}

#[derive(Debug, Clone)]
pub struct SearchResponse {
    pub results: Vec<SearchResultItem>,
    /// How long the search took, in milliseconds: the bits of a double.
    pub latency_ms: u64,
}

/// What the contracts say of a value is said of its fields, each under its own name.
pub proof fn each_field_is_seen_as_it_is(item: SearchResultItem)
    ensures
        item@.chunk_id == item.chunk_id@,
        item@.score == item.score,
        item@.text == item.text@,
        item@.filename == item.metadata.filename@,
        item@.document_type == item.metadata.document_type@,
{
}

} // verus!
