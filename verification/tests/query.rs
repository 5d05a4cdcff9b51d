use document_routes::query::{
    is_wildcard, parse_attributes, BrowseQuery, DEFAULT_RETRIEVE_DOCUMENTS_LIMIT,
    DEFAULT_RETRIEVE_DOCUMENTS_OFFSET,
};
use document_routes::text::{chars_of, contains, matches_at, split};
use document_routes::window::{browse, select_window, window_bounds};

fn strings(items: &[&str]) -> Vec<String> {
    items.iter().map(|s| s.to_string()).collect()
}

#[test]
fn defaults_are_zero_and_twenty() {
    assert_eq!(DEFAULT_RETRIEVE_DOCUMENTS_OFFSET, 0);
    assert_eq!(DEFAULT_RETRIEVE_DOCUMENTS_LIMIT, 20);
    let q = BrowseQuery::new(None, None, None);
    assert_eq!(q.offset(), 0);
    assert_eq!(q.limit(), 20);
    assert_eq!(q.projection(), None);
}

#[test]
fn given_offset_and_limit_are_kept() {
    let q = BrowseQuery::new(Some(7), Some(3), None);
    assert_eq!(q.offset(), 7);
    assert_eq!(q.limit(), 3);
}

#[test]
fn wildcard_is_the_same_as_omitted() {
    let omitted = BrowseQuery::new(None, None, None);
    let star = BrowseQuery::new(None, None, Some("*".to_string()));
    assert_eq!(star.projection(), omitted.projection());
    assert_eq!(star.projection(), None);
}

#[test]
fn wildcard_among_names_drops_the_projection() {
    assert_eq!(parse_attributes("title,*,id"), None);
    assert_eq!(parse_attributes("*,title"), None);
    assert_eq!(parse_attributes("title,*"), None);
}

#[test]
fn names_are_kept_as_given() {
    assert_eq!(parse_attributes("title,id,title"), Some(strings(&["title", "id", "title"])));
    assert_eq!(parse_attributes("title"), Some(strings(&["title"])));
    assert_eq!(parse_attributes(""), Some(strings(&[""])));
    assert_eq!(parse_attributes("a,,b,"), Some(strings(&["a", "", "b", ""])));
    assert_eq!(parse_attributes("**"), Some(strings(&["**"])));
    assert_eq!(parse_attributes(" *"), Some(strings(&[" *"])));
}

#[test]
fn wildcard_is_one_star() {
    assert!(is_wildcard("*"));
    assert!(!is_wildcard(""));
    assert!(!is_wildcard("**"));
    assert!(!is_wildcard("a"));
}

#[test]
fn split_yields_every_field() {
    assert_eq!(split("a,b,c", ','), strings(&["a", "b", "c"]));
    assert_eq!(split("", ','), strings(&[""]));
    assert_eq!(split(",", ','), strings(&["", ""]));
    assert_eq!(split("héllo,wörld", ','), strings(&["héllo", "wörld"]));
    assert_eq!(split("a,b", ';'), strings(&["a,b"]));
}

#[test]
fn split_agrees_with_std() {
    for s in ["", ",", "a", "a,b", ",a,,b,", "x,*,y", "日本,語"] {
        let expected: Vec<String> = s.split(',').map(String::from).collect();
        assert_eq!(split(s, ','), expected);
    }
}

#[test]
fn contains_finds_substrings() {
    assert!(contains("application/json; charset=utf-8", "application/json"));
    assert!(contains("abc", ""));
    assert!(contains("", ""));
    assert!(contains("abc", "abc"));
    assert!(contains("abc", "bc"));
    assert!(!contains("abc", "abcd"));
    assert!(!contains("", "a"));
    assert!(!contains("aab", "aba"));
    assert!(contains("aaab", "aab"));
}

#[test]
fn contains_agrees_with_std() {
    let hay = ["", "a", "ab", "aab", "text/plain", "application/json", "xapplication/csvx"];
    let needles = ["", "a", "b", "ab", "application/csv", "json", "plain "];
    for h in hay {
        for n in needles {
            assert_eq!(contains(h, n), h.contains(n));
        }
    }
}

#[test]
fn matches_at_checks_one_position() {
    let h = chars_of("hello");
    let n = chars_of("ll");
    assert_eq!(h, vec!['h', 'e', 'l', 'l', 'o']);
    assert!(matches_at(&h, &n, 2));
    assert!(!matches_at(&h, &n, 1));
    assert!(!matches_at(&h, &n, 4));
    assert!(!matches_at(&h, &n, 9));
    assert!(matches_at(&h, &chars_of(""), 5));
    assert!(!matches_at(&h, &chars_of(""), 6));
}

#[test]
fn window_bounds_are_clipped() {
    assert_eq!(window_bounds(10, 0, 20), (0, 10));
    assert_eq!(window_bounds(10, 3, 4), (3, 7));
    assert_eq!(window_bounds(10, 10, 4), (10, 10));
    assert_eq!(window_bounds(10, 12, 4), (10, 10));
    assert_eq!(window_bounds(10, 8, 2), (8, 10));
    assert_eq!(window_bounds(10, 8, usize::MAX), (8, 10));
    assert_eq!(window_bounds(usize::MAX, usize::MAX - 1, usize::MAX), (usize::MAX - 1, usize::MAX));
    assert_eq!(window_bounds(0, 0, 0), (0, 0));
    assert_eq!(window_bounds(5, 2, 0), (2, 2));
}

#[test]
fn listing_shows_the_window_only() {
    let docs = strings(&["d0", "d1", "d2", "d3", "d4"]);
    assert_eq!(select_window(&docs, 1, 2), strings(&["d1", "d2"]));
    assert_eq!(select_window(&docs, 0, 20), docs);
    assert_eq!(select_window(&docs, 4, 3), strings(&["d4"]));
    assert_eq!(select_window(&docs, 5, 3), Vec::<String>::new());
    assert_eq!(select_window(&docs, 2, 0), Vec::<String>::new());
    for offset in 0..7 {
        for limit in 0..7 {
            let shown = select_window(&docs, offset, limit);
            assert!(shown.len() <= limit);
            for (i, d) in shown.iter().enumerate() {
                assert_eq!(d, &docs[offset + i]);
            }
        }
    }
}

#[test]
fn browse_applies_the_defaults() {
    let docs: Vec<String> = (0..30).map(|i| format!("d{}", i)).collect();
    let shown = browse(&docs, &BrowseQuery::new(None, None, None));
    assert_eq!(shown.len(), 20);
    assert_eq!(shown[0], "d0");
    assert_eq!(shown[19], "d19");
    let shown = browse(&docs, &BrowseQuery::new(Some(25), None, None));
    assert_eq!(shown, strings(&["d25", "d26", "d27", "d28", "d29"]));
}
