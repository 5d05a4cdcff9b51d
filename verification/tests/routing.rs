use document_routes::routes::{
    configure, guard_content_type, guard_csv, guard_json, path_matches, select_route, Guard,
    Handler, Method, PathPattern, ResourceDef, RouteDef, ServiceConfig,
};

fn table() -> ServiceConfig {
    let mut cfg = ServiceConfig::new();
    configure(&mut cfg);
    cfg
}

#[test]
fn configure_registers_three_resources_in_order() {
    let cfg = table();
    assert_eq!(cfg.resources.len(), 3);
    assert_eq!(cfg.resources[0].pattern, PathPattern::Collection);
    assert_eq!(cfg.resources[1].pattern, PathPattern::DeleteBatch);
    assert_eq!(cfg.resources[2].pattern, PathPattern::DocumentId);
    assert_eq!(cfg.resources[0].routes.len(), 6);
    assert_eq!(cfg.resources[1].routes.len(), 1);
    assert_eq!(cfg.resources[2].routes.len(), 2);
}

#[test]
fn configure_keeps_what_was_registered() {
    let mut cfg = ServiceConfig::new();
    cfg.service(ResourceDef { pattern: PathPattern::DocumentId, routes: Vec::new() });
    configure(&mut cfg);
    assert_eq!(cfg.resources.len(), 4);
    assert_eq!(cfg.resources[0].pattern, PathPattern::DocumentId);
    assert_eq!(cfg.dispatch(Method::Get, "/abc", None), None);
    assert_eq!(cfg.dispatch(Method::Get, "", None), Some(Handler::GetAllDocuments));
}

#[test]
fn delete_batch_reaches_the_batch_handler() {
    let cfg = table();
    assert_eq!(cfg.dispatch(Method::Post, "/delete-batch", None), Some(Handler::DeleteDocuments));
    assert_eq!(
        cfg.dispatch(Method::Post, "/delete-batch", Some("application/json")),
        Some(Handler::DeleteDocuments)
    );
    assert_eq!(cfg.dispatch(Method::Get, "/delete-batch", None), None);
    assert_eq!(cfg.dispatch(Method::Delete, "/delete-batch", None), None);
    assert_eq!(cfg.dispatch(Method::Put, "/delete-batch", None), None);
}

#[test]
fn single_document_routes() {
    let cfg = table();
    assert_eq!(cfg.dispatch(Method::Get, "/42", None), Some(Handler::GetDocument));
    assert_eq!(cfg.dispatch(Method::Delete, "/42", None), Some(Handler::DeleteDocument));
    assert_eq!(cfg.dispatch(Method::Post, "/42", Some("application/json")), None);
    assert_eq!(cfg.dispatch(Method::Get, "/delete-batchx", None), Some(Handler::GetDocument));
    assert_eq!(cfg.dispatch(Method::Get, "/a/b", None), None);
    assert_eq!(cfg.dispatch(Method::Get, "/", None), None);
    assert_eq!(cfg.dispatch(Method::Get, "42", None), None);
}

#[test]
fn collection_routes_by_method_and_content_type() {
    let cfg = table();
    assert_eq!(cfg.dispatch(Method::Get, "", None), Some(Handler::GetAllDocuments));
    assert_eq!(
        cfg.dispatch(Method::Post, "", Some("application/json")),
        Some(Handler::AddDocumentsJson)
    );
    assert_eq!(
        cfg.dispatch(Method::Post, "", Some("application/csv; header=present")),
        Some(Handler::AddDocumentsCsv)
    );
    assert_eq!(
        cfg.dispatch(Method::Put, "", Some("application/json")),
        Some(Handler::UpdateDocumentsJson)
    );
    assert_eq!(
        cfg.dispatch(Method::Put, "", Some("application/csv")),
        Some(Handler::UpdateDocumentsCsv)
    );
    assert_eq!(cfg.dispatch(Method::Delete, "", None), Some(Handler::ClearAllDocuments));
    assert_eq!(cfg.dispatch(Method::Post, "", None), None);
    assert_eq!(cfg.dispatch(Method::Post, "", Some("text/plain")), None);
    assert_eq!(cfg.dispatch(Method::Other, "", Some("application/json")), None);
}

#[test]
fn first_matching_route_wins() {
    let both = "application/json, application/csv";
    assert_eq!(table().dispatch(Method::Post, "", Some(both)), Some(Handler::AddDocumentsJson));
    let routes = vec![
        RouteDef { method: Method::Post, guard: Guard::Csv, handler: Handler::AddDocumentsCsv },
        RouteDef { method: Method::Post, guard: Guard::Json, handler: Handler::AddDocumentsJson },
        RouteDef { method: Method::Post, guard: Guard::Any, handler: Handler::DeleteDocuments },
    ];
    assert_eq!(select_route(&routes, Method::Post, Some(both)), Some(Handler::AddDocumentsCsv));
    assert_eq!(select_route(&routes, Method::Post, None), Some(Handler::DeleteDocuments));
    assert_eq!(select_route(&routes, Method::Get, Some(both)), None);
    assert_eq!(select_route(&Vec::new(), Method::Get, None), None);
}

#[test]
fn empty_table_routes_nothing() {
    let cfg = ServiceConfig::new();
    assert_eq!(cfg.dispatch(Method::Get, "", None), None);
}

#[test]
fn guards_look_for_the_media_type() {
    assert!(guard_json(Some("application/json")));
    assert!(guard_json(Some("application/json; charset=utf-8")));
    assert!(!guard_json(Some("application/csv")));
    assert!(!guard_json(Some("Application/JSON")));
    assert!(!guard_json(None));
    assert!(guard_csv(Some("application/csv")));
    assert!(!guard_csv(Some("text/csv")));
    assert!(!guard_csv(None));
    assert!(guard_content_type(Some("text/plain"), "plain"));
    assert!(!guard_content_type(None, ""));
}

#[test]
fn patterns_match_their_paths() {
    assert!(path_matches(PathPattern::Collection, ""));
    assert!(!path_matches(PathPattern::Collection, "/"));
    assert!(path_matches(PathPattern::DeleteBatch, "/delete-batch"));
    assert!(!path_matches(PathPattern::DeleteBatch, "/delete-batch/"));
    assert!(!path_matches(PathPattern::DeleteBatch, "delete-batch"));
    assert!(path_matches(PathPattern::DocumentId, "/delete-batch"));
    assert!(path_matches(PathPattern::DocumentId, "/é"));
    assert!(!path_matches(PathPattern::DocumentId, "/"));
    assert!(!path_matches(PathPattern::DocumentId, ""));
    assert!(!path_matches(PathPattern::DocumentId, "/a/"));
}
