//! Path and query parameters of the document routes, and what a listing
//! request asks for: its window and its field projection.

use vstd::prelude::*;
use vstd::string::*;
use crate::text::{split, split_from, split_on, texts};

verus! {

/// Offset of a listing when the client gives none.
pub const DEFAULT_RETRIEVE_DOCUMENTS_OFFSET: usize = 0;

/// Number of documents of a listing when the client gives none.
pub const DEFAULT_RETRIEVE_DOCUMENTS_LIMIT: usize = 20;

/// Path parameters of the routes that address a collection of documents.
#[derive(Debug)]
pub struct IndexParam {
    pub index_uid: String,
}

/// Path parameters of the routes that address one document.
#[derive(Debug)]
pub struct DocumentParam {
    pub index_uid: String,
    pub document_id: String,
}

/// Query parameters of a listing.
#[derive(Debug)]
pub struct BrowseQuery {
    pub offset: Option<usize>,
    pub limit: Option<usize>,
    pub attributes_to_retrieve: Option<String>,
}

/// What a listing's query is in contracts.
pub struct BrowseQueryView {
    pub offset: Option<usize>,
    pub limit: Option<usize>,
    pub attributes_to_retrieve: Option<Seq<char>>,
}

impl View for BrowseQuery {
    type V = BrowseQueryView;

    open spec fn view(&self) -> BrowseQueryView {
        BrowseQueryView {
            offset: self.offset,
            limit: self.limit,
            attributes_to_retrieve: opt_text(self.attributes_to_retrieve),
        }
    }
}

/// Query parameters of a document addition or update.
#[derive(Debug)]
pub struct UpdateDocumentsQuery {
    pub primary_key: Option<String>,
}

/// The field name that stands for every field.
pub open spec fn wildcard() -> Seq<char> {
    seq!['*']
}

/// The projection that a comma-separated attribute list asks for: none when
/// the list is absent or one of its names is the wildcard, else the names as
/// given, duplicates and order kept.
pub open spec fn projection_of(attrs: Option<Seq<char>>) -> Option<Seq<Seq<char>>> {
    match attrs {
        None => None,
        Some(list) => {
            let names = split_on(list, ',');
            if names.contains(wildcard()) {
                None
            } else {
                Some(names)
            }
        },
    }
}

/// The view of an optional list of names.
pub open spec fn name_texts(names: Option<Vec<String>>) -> Option<Seq<Seq<char>>> {
    match names {
        None => None,
        Some(v) => Some(texts(v@)),
    }
}

/// The view of an optional string.
pub open spec fn opt_text(s: Option<String>) -> Option<Seq<char>> {
    match s {
        None => None,
        Some(t) => Some(t@),
    }
}

impl DocumentParam {
    pub fn new(index_uid: String, document_id: String) -> (p: Self)
        ensures
            p.index_uid == index_uid,
            p.document_id == document_id,
    {
        DocumentParam { index_uid, document_id }
    }
}

impl UpdateDocumentsQuery {
    pub fn new(primary_key: Option<String>) -> (q: Self)
        ensures
            q.primary_key == primary_key,
    {
        UpdateDocumentsQuery { primary_key }
    }
}

impl BrowseQuery {
    pub fn new(
        offset: Option<usize>,
        limit: Option<usize>,
        attributes_to_retrieve: Option<String>,
    ) -> (q: Self)
        ensures
            q.offset == offset,
            q.limit == limit,
            q.attributes_to_retrieve == attributes_to_retrieve,
    {
        BrowseQuery { offset, limit, attributes_to_retrieve }
    }

    /// The offset in force, the default where none was given.
    pub open spec fn spec_offset(&self) -> usize {
        match self.offset {
            Some(o) => o,
            None => DEFAULT_RETRIEVE_DOCUMENTS_OFFSET,
        }
    }

    /// The limit in force, the default where none was given.
    pub open spec fn spec_limit(&self) -> usize {
        match self.limit {
            Some(l) => l,
            None => DEFAULT_RETRIEVE_DOCUMENTS_LIMIT,
        }
    }

    #[verifier::when_used_as_spec(spec_offset)]
    pub fn offset(&self) -> (o: usize)
        ensures
            o == self.spec_offset(),
    {
        match self.offset {
            Some(o) => o,
            None => DEFAULT_RETRIEVE_DOCUMENTS_OFFSET,
        }
    }

    #[verifier::when_used_as_spec(spec_limit)]
    pub fn limit(&self) -> (l: usize)
        ensures
            l == self.spec_limit(),
    {
        match self.limit {
            Some(l) => l,
            None => DEFAULT_RETRIEVE_DOCUMENTS_LIMIT,
        }
    }

    /// The projection asked for.
    pub fn projection(&self) -> (names: Option<Vec<String>>)
        ensures
            name_texts(names) == projection_of(opt_text(self.attributes_to_retrieve)),
    {
        match &self.attributes_to_retrieve {
            None => None,
            Some(attrs) => parse_attributes(attrs.as_str()),
        }
    }
}

/// A list that is the wildcard alone asks for what no list at all asks for:
/// every field. So does any list one of whose names is the wildcard.
pub proof fn wildcard_is_no_projection(list: Seq<char>)
    ensures
        projection_of(Some(wildcard())) == projection_of(None),
        projection_of(Some("*"@)) == projection_of(None),
        split_on(list, ',').contains(wildcard()) ==> projection_of(Some(list)) == projection_of(
            None,
        ),
{
    reveal_strlit("*");
    assert("*"@ =~= wildcard());
    reveal_with_fuel(split_from, 3);
    let names = split_on(wildcard(), ',');
    assert(wildcard().subrange(0, 1) =~= wildcard());
    assert(names[0] == wildcard());
}

/// Whether `name` is the wildcard.
pub fn is_wildcard(name: &str) -> (r: bool)
    ensures
        r == (name@ == wildcard()),
{
    let r = name.unicode_len() == 1 && name.get_char(0) == '*';
    assert(r ==> name@ =~= wildcard());
    r
}

/// Reads a comma-separated attribute list.
pub fn parse_attributes(attrs: &str) -> (names: Option<Vec<String>>)
    ensures
        name_texts(names) == projection_of(Some(attrs@)),
{
    let fields = split(attrs, ',');
    let mut i: usize = 0;
    while i < fields.len()
        invariant
            i <= fields.len(),
            texts(fields@) == split_on(attrs@, ','),
            forall|k: int| 0 <= k < i ==> texts(fields@)[k] != wildcard(),
        decreases fields.len() - i,
    {
        assert(texts(fields@)[i as int] == fields@[i as int]@);
        if is_wildcard(fields[i].as_str()) {
            assert(texts(fields@).contains(wildcard()));
            return None;
        }
        i += 1;
    }
    assert(!texts(fields@).contains(wildcard()));
    Some(fields)
}

} // verus!
