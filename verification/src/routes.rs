//! The routing table of the document routes: resources are tried in the
//! order in which they were registered, and within a resource the first route
//! whose method and content-type guard accept the request wins.

use vstd::prelude::*;
use vstd::string::*;
use crate::text::{contains, contains_text};

verus! {

/// HTTP methods that the table tells apart.
#[derive(Clone, Copy, Debug, PartialEq, Eq, Structural)]
pub enum Method {
    Get,
    Post,
    Put,
    Delete,
    Other,
}

/// A condition on the request's declared content type.
#[derive(Clone, Copy, Debug, PartialEq, Eq, Structural)]
pub enum Guard {
    Any,
    Json,
    Csv,
}

/// The handlers of the document routes.
#[derive(Clone, Copy, Debug, PartialEq, Eq, Structural)]
pub enum Handler {
    GetAllDocuments,
    AddDocumentsJson,
    AddDocumentsCsv,
    UpdateDocumentsJson,
    UpdateDocumentsCsv,
    ClearAllDocuments,
    DeleteDocuments,
    GetDocument,
    DeleteDocument,
}

/// The shapes of path that follow the collection's own path.
#[derive(Clone, Copy, Debug, PartialEq, Eq, Structural)]
pub enum PathPattern {
    /// Nothing follows.
    Collection,
    /// The literal segment of the batch deletion.
    DeleteBatch,
    /// One segment, taken as a document identifier.
    DocumentId,
}

/// One route of a resource.
#[derive(Clone, Copy, Debug)]
pub struct RouteDef {
    pub method: Method,
    pub guard: Guard,
    pub handler: Handler,
}

/// A path pattern with its routes, in registration order.
pub struct ResourceDef {
    pub pattern: PathPattern,
    pub routes: Vec<RouteDef>,
}

/// What a resource is in contracts.
pub struct ResourceView {
    pub pattern: PathPattern,
    pub routes: Seq<RouteDef>,
}

impl View for ResourceDef {
    type V = ResourceView;

    open spec fn view(&self) -> ResourceView {
        ResourceView { pattern: self.pattern, routes: self.routes@ }
    }
}

/// The resources registered so far, in registration order.
pub struct ServiceConfig {
    pub resources: Vec<ResourceDef>,
}

impl View for ServiceConfig {
    type V = Seq<ResourceView>;

    open spec fn view(&self) -> Seq<ResourceView> {
        self.resources@.map_values(|r: ResourceDef| r@)
    }
}

/// The media type that the JSON guard looks for.
pub open spec fn json_media_type() -> Seq<char> {
    "application/json"@
}

/// The media type that the CSV guard looks for.
pub open spec fn csv_media_type() -> Seq<char> {
    "application/csv"@
}

/// The path of the batch deletion, after the collection's own path.
pub open spec fn delete_batch_path() -> Seq<char> {
    "/delete-batch"@
}

/// A guard accepts a request by its content type: a media type guard needs a
/// header that contains the media type.
pub open spec fn guard_accepts(guard: Guard, content_type: Option<Seq<char>>) -> bool {
    match guard {
        Guard::Any => true,
        Guard::Json => content_type matches Some(v) && contains_text(v, json_media_type()),
        Guard::Csv => content_type matches Some(v) && contains_text(v, csv_media_type()),
    }
}

/// A path matches a pattern.
pub open spec fn pattern_matches(pattern: PathPattern, path: Seq<char>) -> bool {
    match pattern {
        PathPattern::Collection => path.len() == 0,
        PathPattern::DeleteBatch => path == delete_batch_path(),
        PathPattern::DocumentId => {
            &&& path.len() >= 2
            &&& path[0] == '/'
            &&& forall|i: int| 1 <= i < path.len() ==> path[i] != '/'
        },
    }
}

/// A route accepts a request.
pub open spec fn route_accepts(
    route: RouteDef,
    method: Method,
    content_type: Option<Seq<char>>,
) -> bool {
    route.method == method && guard_accepts(route.guard, content_type)
}

/// The handler of the first route that accepts the request.
pub open spec fn first_route(
    routes: Seq<RouteDef>,
    method: Method,
    content_type: Option<Seq<char>>,
) -> Option<Handler>
    decreases routes.len(),
{
    if routes.len() == 0 {
        None
    } else if route_accepts(routes[0], method, content_type) {
        Some(routes[0].handler)
    } else {
        first_route(routes.skip(1), method, content_type)
    }
}

/// The handler that a request reaches: the first resource whose pattern
/// matches the path decides, and no later resource is tried.
pub open spec fn resolve(
    resources: Seq<ResourceView>,
    method: Method,
    path: Seq<char>,
    content_type: Option<Seq<char>>,
) -> Option<Handler>
    decreases resources.len(),
{
    if resources.len() == 0 {
        None
    } else if pattern_matches(resources[0].pattern, path) {
        first_route(resources[0].routes, method, content_type)
    } else {
        resolve(resources.skip(1), method, path, content_type)
    }
}

/// The routes on the collection itself.
pub open spec fn collection_routes() -> Seq<RouteDef> {
    seq![
        RouteDef { method: Method::Get, guard: Guard::Any, handler: Handler::GetAllDocuments },
        RouteDef { method: Method::Post, guard: Guard::Json, handler: Handler::AddDocumentsJson },
        RouteDef { method: Method::Post, guard: Guard::Csv, handler: Handler::AddDocumentsCsv },
        RouteDef { method: Method::Put, guard: Guard::Json, handler: Handler::UpdateDocumentsJson },
        RouteDef { method: Method::Put, guard: Guard::Csv, handler: Handler::UpdateDocumentsCsv },
        RouteDef { method: Method::Delete, guard: Guard::Any, handler: Handler::ClearAllDocuments },
    ]
}

/// The routes of the batch deletion.
pub open spec fn delete_batch_routes() -> Seq<RouteDef> {
    seq![
        RouteDef { method: Method::Post, guard: Guard::Any, handler: Handler::DeleteDocuments },
    ]
}

/// The routes on one document.
pub open spec fn document_routes() -> Seq<RouteDef> {
    seq![
        RouteDef { method: Method::Get, guard: Guard::Any, handler: Handler::GetDocument },
        RouteDef { method: Method::Delete, guard: Guard::Any, handler: Handler::DeleteDocument },
    ]
}

/// The resources of the document routes; the batch deletion stands before
/// the single document.
pub open spec fn document_resources() -> Seq<ResourceView> {
    seq![
        ResourceView { pattern: PathPattern::Collection, routes: collection_routes() },
        ResourceView { pattern: PathPattern::DeleteBatch, routes: delete_batch_routes() },
        ResourceView { pattern: PathPattern::DocumentId, routes: document_routes() },
    ]
}

/// Whether a content-type header, if any, contains `media_type`.
pub fn guard_content_type(content_type: Option<&str>, media_type: &str) -> (r: bool)
    ensures
        r == (content_type matches Some(v) && contains_text(v@, media_type@)),
{
    match content_type {
        Some(v) => contains(v, media_type),
        None => false,
    }
}

/// The JSON guard.
pub fn guard_json(content_type: Option<&str>) -> (r: bool)
    ensures
        r == guard_accepts(Guard::Json, opt_str(content_type)),
{
    guard_content_type(content_type, "application/json")
}

/// The CSV guard.
pub fn guard_csv(content_type: Option<&str>) -> (r: bool)
    ensures
        r == guard_accepts(Guard::Csv, opt_str(content_type)),
{
    guard_content_type(content_type, "application/csv")
}

/// The view of an optional string slice.
pub open spec fn opt_str(s: Option<&str>) -> Option<Seq<char>> {
    match s {
        None => None,
        Some(t) => Some(t@),
    }
}

impl ServiceConfig {
    /// A configuration with no resource.
    pub fn new() -> (cfg: Self)
        ensures
            cfg@ == Seq::<ResourceView>::empty(),
    {
        let cfg = ServiceConfig { resources: Vec::new() };
        assert(cfg@ =~= Seq::<ResourceView>::empty());
        cfg
    }

    /// Registers a resource after those already there.
    pub fn service(&mut self, resource: ResourceDef)
        ensures
            final(self)@ == old(self)@.push(resource@),
    {
        self.resources.push(resource);
        assert(self@ =~= old(self)@.push(resource@));
    }

    /// The handler that a request reaches, if any.
    pub fn dispatch(&self, method: Method, path: &str, content_type: Option<&str>) -> (h: Option<
        Handler,
    >)
        ensures
            h == resolve(self@, method, path@, opt_str(content_type)),
    {
        let mut i: usize = 0;
        assert(self@.skip(0) =~= self@);
        while i < self.resources.len()
            invariant
                i <= self.resources.len(),
                resolve(self@, method, path@, opt_str(content_type)) == resolve(
                    self@.skip(i as int),
                    method,
                    path@,
                    opt_str(content_type),
                ),
            decreases self.resources.len() - i,
        {
            let resource = &self.resources[i];
            assert(self@.skip(i as int)[0] == resource@);
            assert(self@.skip(i as int).skip(1) =~= self@.skip(i + 1));
            if path_matches(resource.pattern, path) {
                return select_route(&resource.routes, method, content_type);
            }
            i += 1;
        }
        None
    }
}

/// Whether `path` matches `pattern`.
pub fn path_matches(pattern: PathPattern, path: &str) -> (r: bool)
    ensures
        r == pattern_matches(pattern, path@),
{
    match pattern {
        PathPattern::Collection => path.unicode_len() == 0,
        PathPattern::DeleteBatch => {
            let literal = String::from_str("/delete-batch");
            let owned = String::from_str(path);
            owned == literal
        },
        PathPattern::DocumentId => {
            let n: usize = path.unicode_len();
            if n < 2 || path.get_char(0) != '/' {
                return false;
            }
            let mut i: usize = 1;
            while i < n
                invariant
                    n == path@.len(),
                    1 <= i <= n,
                    pattern == PathPattern::DocumentId,
                    path@[0] == '/',
                    forall|k: int| 1 <= k < i ==> path@[k] != '/',
                decreases n - i,
            {
                if path.get_char(i) == '/' {
                    assert(path@[i as int] == '/');
                    return false;
                }
                i += 1;
            }
            true
        },
    }
}

/// The handler of the first of `routes` that accepts the request.
pub fn select_route(routes: &Vec<RouteDef>, method: Method, content_type: Option<&str>) -> (h:
    Option<Handler>)
    ensures
        h == first_route(routes@, method, opt_str(content_type)),
{
    let mut i: usize = 0;
    assert(routes@.skip(0) =~= routes@);
    while i < routes.len()
        invariant
            i <= routes.len(),
            first_route(routes@, method, opt_str(content_type)) == first_route(
                routes@.skip(i as int),
                method,
                opt_str(content_type),
            ),
        decreases routes.len() - i,
    {
        let route = routes[i];
        assert(routes@.skip(i as int)[0] == route);
        assert(routes@.skip(i as int).skip(1) =~= routes@.skip(i + 1));
        let guarded = match route.guard {
            Guard::Any => true,
            Guard::Json => guard_json(content_type),
            Guard::Csv => guard_csv(content_type),
        };
        if route.method == method && guarded {
            return Some(route.handler);
        }
        i += 1;
    }
    None
}

/// Registers the document routes: the collection, then the batch deletion,
/// then the single document, so that the literal segment of the batch
/// deletion is never read as a document identifier.
pub fn configure(cfg: &mut ServiceConfig)
    ensures
        final(cfg)@ == old(cfg)@ + document_resources(),
{
    let mut collection: Vec<RouteDef> = Vec::new();
    collection.push(RouteDef { method: Method::Get, guard: Guard::Any, handler: Handler::GetAllDocuments });
    collection.push(RouteDef { method: Method::Post, guard: Guard::Json, handler: Handler::AddDocumentsJson });
    collection.push(RouteDef { method: Method::Post, guard: Guard::Csv, handler: Handler::AddDocumentsCsv });
    collection.push(RouteDef { method: Method::Put, guard: Guard::Json, handler: Handler::UpdateDocumentsJson });
    collection.push(RouteDef { method: Method::Put, guard: Guard::Csv, handler: Handler::UpdateDocumentsCsv });
    collection.push(RouteDef { method: Method::Delete, guard: Guard::Any, handler: Handler::ClearAllDocuments });
    assert(collection@ =~= collection_routes());
    let mut batch: Vec<RouteDef> = Vec::new();
    batch.push(RouteDef { method: Method::Post, guard: Guard::Any, handler: Handler::DeleteDocuments });
    assert(batch@ =~= delete_batch_routes());
    let mut document: Vec<RouteDef> = Vec::new();
    document.push(RouteDef { method: Method::Get, guard: Guard::Any, handler: Handler::GetDocument });
    document.push(RouteDef { method: Method::Delete, guard: Guard::Any, handler: Handler::DeleteDocument });
    assert(document@ =~= document_routes());
    cfg.service(ResourceDef { pattern: PathPattern::Collection, routes: collection });
    cfg.service(ResourceDef { pattern: PathPattern::DeleteBatch, routes: batch });
    cfg.service(ResourceDef { pattern: PathPattern::DocumentId, routes: document });
    assert(cfg@ =~= old(cfg)@ + document_resources());
}

/// The batch deletion takes precedence over the single document: on the
/// document routes alone, a request to the batch deletion's path reaches the
/// batch deletion when it is a POST and no handler otherwise, whatever its
/// content type; it never reaches a handler of one document, although its
/// path has the shape of a document's.
pub proof fn delete_batch_precedes_document_id(method: Method, content_type: Option<Seq<char>>)
    ensures
        resolve(document_resources(), method, delete_batch_path(), content_type) == (if method
            == Method::Post {
            Some(Handler::DeleteDocuments)
        } else {
            None::<Handler>
        }),
        resolve(document_resources(), method, delete_batch_path(), content_type) != Some(
            Handler::GetDocument,
        ),
        resolve(document_resources(), method, delete_batch_path(), content_type) != Some(
            Handler::DeleteDocument,
        ),
        pattern_matches(PathPattern::DocumentId, delete_batch_path()),
{
    reveal_strlit("/delete-batch");
    let path = delete_batch_path();
    let table = document_resources();
    assert(path.len() == 13);
    assert(!pattern_matches(PathPattern::Collection, path));
    assert(table.skip(1)[0].pattern == PathPattern::DeleteBatch);
    reveal_with_fuel(resolve, 3);
    reveal_with_fuel(first_route, 3);
    assert(delete_batch_routes().skip(1).len() == 0);
}

/// On the document routes alone, a path of one segment other than the batch
/// deletion's reaches the fetch of one document on GET, its deletion on
/// DELETE, and no handler on any other method.
pub proof fn document_path_reaches_document_handlers(
    method: Method,
    path: Seq<char>,
    content_type: Option<Seq<char>>,
)
    requires
        pattern_matches(PathPattern::DocumentId, path),
        path != delete_batch_path(),
    ensures
        resolve(document_resources(), method, path, content_type) == (match method {
            Method::Get => Some(Handler::GetDocument),
            Method::Delete => Some(Handler::DeleteDocument),
            _ => None::<Handler>,
        }),
{
    let table = document_resources();
    assert(table.skip(1)[0].pattern == PathPattern::DeleteBatch);
    assert(table.skip(1).skip(1)[0].pattern == PathPattern::DocumentId);
    assert(table.skip(1).skip(1)[0].routes == document_routes());
    reveal_with_fuel(resolve, 4);
    reveal_with_fuel(first_route, 4);
    assert(document_routes().skip(1)[0].handler == Handler::DeleteDocument);
    assert(document_routes().skip(1).skip(1).len() == 0);
}

/// On the document routes alone, the collection's own path reaches the
/// listing on GET, the clearing on DELETE, an addition on POST and an update
/// on PUT where the content type names JSON or CSV, JSON first, and no
/// handler otherwise.
pub proof fn collection_path_reaches_collection_handlers(
    method: Method,
    content_type: Option<Seq<char>>,
)
    ensures
        resolve(document_resources(), method, Seq::<char>::empty(), content_type) == (match method {
            Method::Get => Some(Handler::GetAllDocuments),
            Method::Delete => Some(Handler::ClearAllDocuments),
            Method::Post => if guard_accepts(Guard::Json, content_type) {
                Some(Handler::AddDocumentsJson)
            } else if guard_accepts(Guard::Csv, content_type) {
                Some(Handler::AddDocumentsCsv)
            } else {
                None
            },
            Method::Put => if guard_accepts(Guard::Json, content_type) {
                Some(Handler::UpdateDocumentsJson)
            } else if guard_accepts(Guard::Csv, content_type) {
                Some(Handler::UpdateDocumentsCsv)
            } else {
                None
            },
            Method::Other => None::<Handler>,
        }),
{
    let routes = collection_routes();
    assert(document_resources()[0].routes == routes);
    reveal_with_fuel(resolve, 2);
    reveal_with_fuel(first_route, 8);
    assert(routes.skip(1)[0] == routes[1]);
    assert(routes.skip(1).skip(1)[0] == routes[2]);
    assert(routes.skip(1).skip(1).skip(1)[0] == routes[3]);
    assert(routes.skip(1).skip(1).skip(1).skip(1)[0] == routes[4]);
    assert(routes.skip(1).skip(1).skip(1).skip(1).skip(1)[0] == routes[5]);
    assert(routes.skip(1).skip(1).skip(1).skip(1).skip(1).skip(1).len() == 0);
}

} // verus!
