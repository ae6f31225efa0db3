use finder::clock::Timestamp;
use finder::index::Index;
use finder::search::{SearchError, SearchOptions, SearchResults};

fn text(s: &str) -> String {
    s.to_string()
}

fn index_of(files: &[&str]) -> Index {
    let mut index = Index::created_at(Timestamp::new(1_700_000_000, 0));
    for file in files {
        index.add(text(file));
    }
    index
}

fn options(query: &str, path: Option<&str>, filetype: Option<&str>) -> SearchOptions {
    SearchOptions { query: Some(text(query)), path: path.map(text), filetype: filetype.map(text) }
}

fn found(index: &Index, options: &SearchOptions) -> Vec<String> {
    match SearchResults::search(index, options) {
        Ok(results) => results.results,
        Err(error) => panic!("the search failed: {:?}", error),
    }
}

#[test]
fn files_without_an_extension_are_left_out() {
    let index = index_of(&["a.txt", "b"]);
    assert_eq!(found(&index, &options(".", None, Some("txt"))), vec![text("a.txt")]);
}

#[test]
fn the_pattern_sees_the_directories() {
    let index = index_of(&["/home/u/docs/report.pdf", "/home/u/photo.pdf"]);
    assert_eq!(found(&index, &options("docs", None, None)), vec![text("/home/u/docs/report.pdf")]);
}

#[test]
fn the_pattern_sees_the_file_name() {
    let index = index_of(&["/home/u/docs/report.pdf", "/home/u/photo.pdf"]);
    assert_eq!(
        found(&index, &options(r"\.pdf$", None, None)),
        vec![text("/home/u/docs/report.pdf"), text("/home/u/photo.pdf")]
    );
}

#[test]
fn the_pattern_may_match_anywhere() {
    let index = index_of(&["/srv/data/x", "/home/data", "/home/u/y"]);
    assert_eq!(found(&index, &options("data", None, None)), vec![text("/srv/data/x"), text("/home/data")]);
    assert_eq!(found(&index, &options("^/home", None, None)), vec![text("/home/data"), text("/home/u/y")]);
    assert_eq!(found(&index, &options("^data", None, None)), Vec::<String>::new());
}

#[test]
fn scope_and_filetype_and_pattern_all_have_to_hold() {
    let index = index_of(&[
        "/home/u/docs/report.pdf",
        "/home/u/docs/report.txt",
        "/home/v/docs/report.pdf",
        "/home/u/docs/notes.pdf",
        "/home/u/docs/report",
        "/home/u2/docs/report.pdf",
    ]);
    let options = options("report", Some("/home/u"), Some("pdf"));
    let results = found(&index, &options);
    assert_eq!(results, vec![text("/home/u/docs/report.pdf")]);
    for file in &results {
        assert!(index.files.contains(file));
        assert!(SearchResults::is_under_path(file, options.path.as_ref()));
        assert!(SearchResults::is_filetype(file, options.filetype.as_ref()));
    }
}

#[test]
fn each_filter_alone_lets_more_through() {
    let index = index_of(&["/home/u/a.pdf", "/home/u/a.txt", "/home/v/a.pdf"]);
    assert_eq!(
        found(&index, &options("a", Some("/home/u"), None)),
        vec![text("/home/u/a.pdf"), text("/home/u/a.txt")]
    );
    assert_eq!(
        found(&index, &options("a", None, Some("pdf"))),
        vec![text("/home/u/a.pdf"), text("/home/v/a.pdf")]
    );
    assert_eq!(found(&index, &options("a", Some("/home/u"), Some("pdf"))), vec![text("/home/u/a.pdf")]);
}

#[test]
fn results_come_in_the_order_of_the_index() {
    let index = index_of(&["/z/1.rs", "/a/2.rs", "/m/3.rs", "/a/0.rs"]);
    assert_eq!(
        found(&index, &options(r"\.rs$", None, None)),
        vec![text("/z/1.rs"), text("/a/2.rs"), text("/m/3.rs"), text("/a/0.rs")]
    );
}

#[test]
fn a_path_that_stands_twice_is_found_twice() {
    let index = index_of(&["/a/x", "/b/y", "/a/x"]);
    assert_eq!(found(&index, &options("x", None, None)), vec![text("/a/x"), text("/a/x")]);
}

#[test]
fn an_empty_index_gives_no_results() {
    let index = index_of(&[]);
    assert!(found(&index, &options(".*", None, None)).is_empty());
}

#[test]
fn a_search_can_be_repeated() {
    let index = index_of(&["/home/u/b.txt", "/home/u/a.txt", "/home/u/c.md", "/home/u/a.txt"]);
    let options = options("[ab]", Some("/home"), Some("txt"));
    let first = found(&index, &options);
    let second = found(&index, &options);
    assert_eq!(first, second);
    assert_eq!(first, vec![text("/home/u/b.txt"), text("/home/u/a.txt"), text("/home/u/a.txt")]);
}

#[test]
fn a_search_leaves_the_index_alone() {
    let index = index_of(&["/a", "/b"]);
    let _ = found(&index, &options("a", None, None));
    assert_eq!(index.files, vec![text("/a"), text("/b")]);
    assert_eq!(index.last_update, Timestamp::new(1_700_000_000, 0));
}

#[test]
fn an_outdated_index_is_searched_all_the_same() {
    let mut index = Index::created_at(Timestamp::new(0, 0));
    index.add(text("/old/file"));
    assert!(index.is_outdated());
    assert_eq!(found(&index, &options("file", None, None)), vec![text("/old/file")]);
}

#[test]
fn an_unclosed_group_is_an_invalid_pattern() {
    let index = index_of(&["/a"]);
    match SearchResults::search(&index, &options("foo(bar", None, None)) {
        Err(SearchError::InvalidPattern(message)) => assert!(!message.is_empty()),
        _ => panic!("the pattern was let through"),
    }
}

#[test]
fn an_invalid_pattern_fails_on_an_empty_index_too() {
    let index = index_of(&[]);
    assert!(matches!(
        SearchResults::search(&index, &options("[z-a]", Some("/nowhere"), Some("txt"))),
        Err(SearchError::InvalidPattern(_))
    ));
}

#[test]
fn a_pattern_that_compiles_too_large_is_an_invalid_pattern() {
    let index = index_of(&["/a"]);
    assert!(matches!(
        SearchResults::search(&index, &options(r"\w{1000}{1000}", None, None)),
        Err(SearchError::InvalidPattern(_))
    ));
}

#[test]
fn without_an_index_the_search_fails() {
    match SearchResults::search_stored(None, &options("docs", None, None)) {
        Err(SearchError::MissingIndex) => {}
        _ => panic!("a search without an index went through"),
    }
}

#[test]
fn without_an_index_the_pattern_is_not_looked_at() {
    assert!(matches!(
        SearchResults::search_stored(None, &options("foo(bar", None, None)),
        Err(SearchError::MissingIndex)
    ));
}

#[test]
fn a_stored_index_is_searched_like_any_other() {
    let index = index_of(&["/home/u/docs/report.pdf", "/home/u/photo.pdf"]);
    let options = options("photo", None, None);
    let direct = found(&index, &options);
    match SearchResults::search_stored(Some(&index), &options) {
        Ok(results) => assert_eq!(results.results, direct),
        Err(error) => panic!("the search failed: {:?}", error),
    }
    assert!(matches!(
        SearchResults::search_stored(Some(&index), &SearchOptions {
            query: Some(text("(")),
            path: None,
            filetype: None
        }),
        Err(SearchError::InvalidPattern(_))
    ));
}

#[test]
fn a_path_that_is_gone_is_dropped() {
    let index = index_of(&["/tmp/kept.log", "/tmp/deleted.log", "/tmp/other.txt"]);
    let selected = found(&index, &options(r"\.log$", None, None));
    assert_eq!(selected, vec![text("/tmp/kept.log"), text("/tmp/deleted.log")]);
    // Looked up again, the first path is still there and the second is not.
    let results = SearchResults::from_resolved(vec![Some(text("/tmp/kept.log")), None]);
    assert_eq!(results.results, vec![text("/tmp/kept.log")]);
    assert_eq!(results.count(), 1);
}

#[test]
fn resolved_paths_stay_in_order() {
    let results = SearchResults::from_resolved(vec![
        None,
        Some(text("/c")),
        Some(text("/a")),
        None,
        Some(text("/b")),
        Some(text("/a")),
    ]);
    assert_eq!(results.results, vec![text("/c"), text("/a"), text("/b"), text("/a")]);
}

#[test]
fn nothing_resolved_leaves_nothing() {
    assert_eq!(SearchResults::from_resolved(vec![None, None]).count(), 0);
    assert_eq!(SearchResults::from_resolved(Vec::new()).count(), 0);
}

#[test]
fn new_results_are_empty() {
    let results = SearchResults::new();
    assert!(results.results.is_empty());
    assert_eq!(results.count(), 0);
}

#[test]
fn count_is_the_number_of_results() {
    let index = index_of(&["/a1", "/a2", "/b1", "/a3"]);
    let results = SearchResults::search(&index, &options("a", None, None));
    assert_eq!(results.map(|found| found.count()).unwrap_or(0), 3);
}

#[test]
fn paths_may_hold_any_letters() {
    let index = index_of(&["/home/z\u{fc}rich/stra\u{df}e.txt", "/home/\u{6771}\u{4eac}/map.txt"]);
    assert_eq!(
        found(&index, &options("\u{6771}", Some("/home/\u{6771}\u{4eac}"), Some("txt"))),
        vec![text("/home/\u{6771}\u{4eac}/map.txt")]
    );
    assert_eq!(
        found(&index, &options(r"stra\w+e", None, None)),
        vec![text("/home/z\u{fc}rich/stra\u{df}e.txt")]
    );
}
