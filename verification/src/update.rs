//! Update intents: what a mutation asks of the indexing backend.

use vstd::prelude::*;
use crate::query::opt_text;
use crate::text::texts;

verus! {

/// The format of an ingested payload.
#[derive(Clone, Copy, Debug, PartialEq, Eq, Structural)]
pub enum DocumentAdditionFormat {
    Json,
    Csv,
}

/// How ingested documents meet those already stored under the same
/// identifier: they replace them, or are merged into them.
#[derive(Clone, Copy, Debug, PartialEq, Eq, Structural)]
pub enum IndexDocumentsMethod {
    ReplaceDocuments,
    UpdateDocuments,
}

/// An update intent. The payload of a document addition is a stream and
/// travels beside the intent.
#[derive(Debug)]
pub enum Update {
    DocumentAddition {
        primary_key: Option<String>,
        method: IndexDocumentsMethod,
        format: DocumentAdditionFormat,
    },
    DeleteDocuments(Vec<String>),
    ClearDocuments,
}

/// What an update intent is in contracts.
pub enum UpdateView {
    DocumentAddition {
        primary_key: Option<Seq<char>>,
        method: IndexDocumentsMethod,
        format: DocumentAdditionFormat,
    },
    DeleteDocuments(Seq<Seq<char>>),
    ClearDocuments,
}

impl View for Update {
    type V = UpdateView;

    open spec fn view(&self) -> UpdateView {
        match *self {
            Update::DocumentAddition { primary_key, method, format } => UpdateView::DocumentAddition {
                primary_key: opt_text(primary_key),
                method,
                format,
            },
            Update::DeleteDocuments(ids) => UpdateView::DeleteDocuments(texts(ids@)),
            Update::ClearDocuments => UpdateView::ClearDocuments,
        }
    }
}

/// An intent on its way to the backend: the index it is for, and whether it
/// may take the backend significant time.
#[derive(Debug)]
pub struct UpdateRequest {
    pub index_uid: String,
    pub update: Update,
    pub is_async: bool,
}

/// A request for one document, with the projection to apply.
#[derive(Debug)]
pub struct DocumentRequest {
    pub index_uid: String,
    pub document_id: String,
    pub attributes_to_retrieve: Option<Vec<String>>,
}

/// A request for a window of documents, with the projection to apply.
#[derive(Debug)]
pub struct DocumentsRequest {
    pub index_uid: String,
    pub offset: usize,
    pub limit: usize,
    pub attributes_to_retrieve: Option<Vec<String>>,
}

} // verus!
