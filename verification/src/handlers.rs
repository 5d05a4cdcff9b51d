//! The handlers of the document routes: each turns the request's parameters
//! into what is asked of the backend.

use vstd::prelude::*;
use crate::json::{coerce_document_id, coerced_id, coerced_ids};
use crate::query::{
    name_texts, opt_text, projection_of, BrowseQuery, DocumentParam, IndexParam,
    UpdateDocumentsQuery,
};
use crate::text::texts;
use crate::update::{
    DocumentAdditionFormat, DocumentRequest, DocumentsRequest, IndexDocumentsMethod, Update,
    UpdateRequest, UpdateView,
};

verus! {

/// Fetches one document, all of its fields.
pub fn get_document(path: &DocumentParam) -> (r: DocumentRequest)
    ensures
        r.index_uid == path.index_uid,
        r.document_id == path.document_id,
        r.attributes_to_retrieve is None,
{
    DocumentRequest {
        index_uid: path.index_uid.clone(),
        document_id: path.document_id.clone(),
        attributes_to_retrieve: None,
    }
}

/// Deletes one document.
pub fn delete_document(path: DocumentParam) -> (r: UpdateRequest)
    ensures
        r.index_uid == path.index_uid,
        r.update matches Update::DeleteDocuments(ids) && ids@ == seq![path.document_id],
        !r.is_async,
{
    let DocumentParam { document_id, index_uid } = path;
    let mut ids: Vec<String> = Vec::new();
    ids.push(document_id);
    assert(ids@ =~= seq![path.document_id]);
    UpdateRequest { index_uid, update: Update::DeleteDocuments(ids), is_async: false }
}

/// Lists documents: the window and the projection that the query asks for,
/// with the defaults where it gives none.
pub fn get_all_documents(path: &IndexParam, params: &BrowseQuery) -> (r: DocumentsRequest)
    ensures
        r.index_uid == path.index_uid,
        r.offset == params.spec_offset(),
        r.limit == params.spec_limit(),
        name_texts(r.attributes_to_retrieve) == projection_of(
            opt_text(params.attributes_to_retrieve),
        ),
{
    DocumentsRequest {
        index_uid: path.index_uid.clone(),
        offset: params.offset(),
        limit: params.limit(),
        attributes_to_retrieve: params.projection(),
    }
}

/// Adds documents or updates them: an intent for a payload of the given
/// format, to be applied by the given method.
pub fn document_addition(
    path: IndexParam,
    params: &UpdateDocumentsQuery,
    format: DocumentAdditionFormat,
    method: IndexDocumentsMethod,
) -> (r: UpdateRequest)
    ensures
        r.index_uid == path.index_uid,
        r.update == (Update::DocumentAddition { primary_key: params.primary_key, method, format }),
        r.is_async,
{
    let primary_key = match &params.primary_key {
        Some(key) => Some(key.clone()),
        None => None,
    };
    UpdateRequest {
        index_uid: path.index_uid,
        update: Update::DocumentAddition { primary_key, method, format },
        is_async: true,
    }
}

/// Adds or replaces documents from a JSON payload.
pub fn add_documents_json(path: IndexParam, params: &UpdateDocumentsQuery) -> (r: UpdateRequest)
    ensures
        r.index_uid == path.index_uid,
        r.update == (Update::DocumentAddition {
            primary_key: params.primary_key,
            method: IndexDocumentsMethod::ReplaceDocuments,
            format: DocumentAdditionFormat::Json,
        }),
        r.is_async,
{
    document_addition(
        path,
        params,
        DocumentAdditionFormat::Json,
        IndexDocumentsMethod::ReplaceDocuments,
    )
}

/// Adds or replaces documents from a CSV payload.
pub fn add_documents_csv(path: IndexParam, params: &UpdateDocumentsQuery) -> (r: UpdateRequest)
    ensures
        r.index_uid == path.index_uid,
        r.update == (Update::DocumentAddition {
            primary_key: params.primary_key,
            method: IndexDocumentsMethod::ReplaceDocuments,
            format: DocumentAdditionFormat::Csv,
        }),
        r.is_async,
{
    document_addition(
        path,
        params,
        DocumentAdditionFormat::Csv,
        IndexDocumentsMethod::ReplaceDocuments,
    )
}

/// Merges the documents of a JSON payload into those stored.
pub fn update_documents_json(path: IndexParam, params: &UpdateDocumentsQuery) -> (r: UpdateRequest)
    ensures
        r.index_uid == path.index_uid,
        r.update == (Update::DocumentAddition {
            primary_key: params.primary_key,
            method: IndexDocumentsMethod::UpdateDocuments,
            format: DocumentAdditionFormat::Json,
        }),
        r.is_async,
{
    document_addition(
        path,
        params,
        DocumentAdditionFormat::Json,
        IndexDocumentsMethod::UpdateDocuments,
    )
}

/// Merges the documents of a CSV payload into those stored.
pub fn update_documents_csv(path: IndexParam, params: &UpdateDocumentsQuery) -> (r: UpdateRequest)
    ensures
        r.index_uid == path.index_uid,
        r.update == (Update::DocumentAddition {
            primary_key: params.primary_key,
            method: IndexDocumentsMethod::UpdateDocuments,
            format: DocumentAdditionFormat::Csv,
        }),
        r.is_async,
{
    document_addition(
        path,
        params,
        DocumentAdditionFormat::Csv,
        IndexDocumentsMethod::UpdateDocuments,
    )
}

/// Deletes a batch of documents: each value of the body names one, a string
/// verbatim and any other value by its compact JSON text, in the body's order.
pub fn delete_documents(path: IndexParam, body: &Vec<serde_json::Value>) -> (r: UpdateRequest)
    ensures
        r.index_uid == path.index_uid,
        r.update@ == UpdateView::DeleteDocuments(coerced_ids(body@)),
        !r.is_async,
{
    let mut ids: Vec<String> = Vec::new();
    let mut i: usize = 0;
    while i < body.len()
        invariant
            i <= body.len(),
            ids.len() == i,
            forall|k: int| 0 <= k < i ==> ids@[k]@ == coerced_id(body@[k]),
        decreases body.len() - i,
    {
        ids.push(coerce_document_id(&body[i]));
        i += 1;
    }
    assert(texts(ids@) =~= coerced_ids(body@));
    UpdateRequest { index_uid: path.index_uid, update: Update::DeleteDocuments(ids), is_async: false }
}

/// Deletes every document of the index.
pub fn clear_all_documents(path: IndexParam) -> (r: UpdateRequest)
    ensures
        r.index_uid == path.index_uid,
        r.update == Update::ClearDocuments,
        !r.is_async,
{
    UpdateRequest { index_uid: path.index_uid, update: Update::ClearDocuments, is_async: false }
}

} // verus!
