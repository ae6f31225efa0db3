//! The query engine: which files of an index a query selects, and how the
//! selection is written out.

use crate::index::{keep_resolved, resolved, Index};
use crate::paths::{
    extension, lemma_no_dot_no_extension, path_extension, path_file_name, path_starts_with,
    starts_with,
};
use crate::pattern::{compile, describe, is_match, pattern_compiles, pattern_matches, regex_accepts};
use crate::text::{
    is_whitespace, lemma_trimmed_ends, strip_verbatim_prefix, trim, trimmed,
    without_verbatim_prefix,
};
use vstd::pervasive::unreached;
use vstd::prelude::*;

verus! {

/// What to search for.
///
/// `query` is the regular expression, matched against the whole text of a
/// path. `path`, where given, keeps the search to the files under that
/// directory. `filetype`, where given, keeps it to the files with exactly
/// that extension, written without its dot.
#[derive(Debug)]
pub struct SearchOptions {
    pub query: Option<String>,
    pub path: Option<String>,
    pub filetype: Option<String>,
}

/// The paths that a search selected, in the order of the index.
pub struct SearchResults {
    pub results: Vec<String>,
}

/// Why a search gave no results.
#[derive(Debug)]
pub enum SearchError {
    /// There is no index to search.
    MissingIndex,
    /// The query is not a regular expression that can be compiled; the text
    /// says why.
    InvalidPattern(String),
}

/// A query as texts: the pattern, the path to search under and the
/// extension to keep to.
pub struct Query {
    pub pattern: Option<Seq<char>>,
    pub scope: Option<Seq<char>>,
    pub filetype: Option<Seq<char>>,
}

impl View for SearchOptions {
    type V = Query;

    open spec fn view(&self) -> Query {
        Query {
            pattern: self.query.deep_view(),
            scope: self.path.deep_view(),
            filetype: self.filetype.deep_view(),
        }
    }
}

/// Whether `file` lies under `scope`. Without a scope every file does.
pub open spec fn under_scope(file: Seq<char>, scope: Option<Seq<char>>) -> bool {
    match scope {
        Some(base) => path_starts_with(file, base),
        None => true,
    }
}

/// Whether `file` has the extension `filetype`. Without a filetype every
/// file passes; with one, a file without an extension does not.
pub open spec fn of_filetype(file: Seq<char>, filetype: Option<Seq<char>>) -> bool {
    match filetype {
        Some(wanted) => path_extension(file) == Some(wanted),
        None => true,
    }
}

impl Query {
    /// Whether the query selects `file`: the file lies under the scope, has
    /// the filetype, and the pattern matches somewhere in its path.
    pub open spec fn selects(self, file: Seq<char>) -> bool {
        &&& under_scope(file, self.scope)
        &&& of_filetype(file, self.filetype)
        &&& self.pattern matches Some(pattern) && pattern_matches(pattern, file)
    }

    /// The files among `files` that the query selects, in their order.
    pub open spec fn selection(self, files: Seq<Seq<char>>) -> Seq<Seq<char>> {
        files.filter(|file: Seq<char>| self.selects(file))
    }

    /// Whether `outcome` is what a search of `files` has to return: the
    /// selection where the pattern compiles, and else the error that says
    /// it does not.
    pub open spec fn decides(
        self,
        files: Seq<Seq<char>>,
        outcome: Result<SearchResults, SearchError>,
    ) -> bool {
        match outcome {
            Ok(found) => pattern_compiles(self.pattern.unwrap()) && found@ == self.selection(files),
            Err(error) => !pattern_compiles(self.pattern.unwrap()) && error is InvalidPattern,
        }
    }
}

/// The lines of a report: each path without its extended-length marker and
/// with a line feed behind it.
pub open spec fn report_lines(paths: Seq<Seq<char>>) -> Seq<char>
    decreases paths.len(),
{
    if paths.len() == 0 {
        Seq::empty()
    } else {
        report_lines(paths.drop_last()) + without_verbatim_prefix(paths.last()) + seq!['\n']
    }
}

/// The report of `paths`: its lines, trimmed as a whole.
pub open spec fn report(paths: Seq<Seq<char>>) -> Seq<char> {
    trimmed(report_lines(paths))
}

/// A report neither starts nor ends with white space: no blank line leads or
/// trails it, and it ends without a line feed.
pub proof fn lemma_report_has_clean_ends(paths: Seq<Seq<char>>)
    ensures
        report(paths).len() > 0 ==> !is_whitespace(report(paths).first()) && !is_whitespace(
            report(paths).last(),
        ),
{
    lemma_trimmed_ends(report_lines(paths));
}

/// Filters hold together: with a scope and a filetype both set, every result
/// is a file of the index that lies under the scope, has the filetype and
/// matches the pattern.
pub proof fn lemma_results_meet_every_filter(
    files: Seq<Seq<char>>,
    pattern: Seq<char>,
    scope: Seq<char>,
    filetype: Seq<char>,
    at: int,
)
    requires
        0 <= at < (Query {
            pattern: Some(pattern),
            scope: Some(scope),
            filetype: Some(filetype),
        }).selection(files).len(),
    ensures
        ({
            let query = Query {
                pattern: Some(pattern),
                scope: Some(scope),
                filetype: Some(filetype),
            };
            let found = query.selection(files)[at];
            &&& files.contains(found)
            &&& path_starts_with(found, scope)
            &&& path_extension(found) == Some(filetype)
            &&& pattern_matches(pattern, found)
        }),
{
    let query = Query { pattern: Some(pattern), scope: Some(scope), filetype: Some(filetype) };
    let chosen = |file: Seq<char>| query.selects(file);
    let results = files.filter(chosen);
    files.lemma_filter_pred(chosen, at);
    assert(results.contains(results[at]));
    files.lemma_filter_contains_rev(chosen, results[at]);
}

/// Results keep the order of the index: of two results, the earlier one
/// stands earlier in the index too.
pub proof fn lemma_results_keep_order(files: Seq<Seq<char>>, query: Query, first: int, second: int)
    requires
        0 <= first < second < query.selection(files).len(),
    ensures
        exists|i: int, j: int|
            0 <= i < j < files.len() && files[i] == query.selection(files)[first] && files[j]
                == query.selection(files)[second],
    decreases files.len(),
{
    let chosen = |file: Seq<char>| query.selects(file);
    let results = files.filter(chosen);
    reveal(Seq::filter);
    let front = files.drop_last();
    let before = front.filter(chosen);
    if second < before.len() {
        lemma_results_keep_order(front, query, first, second);
        let (i, j) = choose|i: int, j: int|
            0 <= i < j < front.len() && front[i] == before[first] && front[j] == before[second];
        assert(files[i] == results[first] && files[j] == results[second]);
    } else {
        assert(before.contains(before[first]));
        front.lemma_filter_contains_rev(chosen, before[first]);
        let i = choose|i: int| 0 <= i < front.len() && front[i] == before[first];
        let j = files.len() - 1;
        assert(files[i] == results[first] && files[j] == results[second]);
    }
}

/// With a filetype set, a file without an extension is left out: a path
/// that ends in no file name, and one whose file name holds no dot.
pub proof fn lemma_files_without_extension_are_left_out(
    files: Seq<Seq<char>>,
    query: Query,
    file: Seq<char>,
)
    requires
        query.filetype is Some,
        match path_file_name(file) {
            Some(name) => !name.contains('.'),
            None => true,
        },
    ensures
        !query.selection(files).contains(file),
{
    let chosen = |candidate: Seq<char>| query.selects(candidate);
    let results = files.filter(chosen);
    if let Some(name) = path_file_name(file) {
        lemma_no_dot_no_extension(name);
    }
    if results.contains(file) {
        let at = choose|at: int| 0 <= at < results.len() && results[at] == file;
        files.lemma_filter_pred(chosen, at);
    }
}

/// A search can be repeated: two searches of one index with the same options
/// either both fail or both give the same results in the same order.
pub proof fn lemma_search_is_repeatable(
    index: &Index,
    options: &SearchOptions,
    first: Result<SearchResults, SearchError>,
    second: Result<SearchResults, SearchError>,
)
    requires
        options@.decides(index@.files, first),
        options@.decides(index@.files, second),
    ensures
        first is Ok <==> second is Ok,
        first is Ok ==> first.unwrap()@ == second.unwrap()@,
{
}

impl View for SearchResults {
    type V = Seq<Seq<char>>;

    open spec fn view(&self) -> Seq<Seq<char>> {
        self.results.deep_view()
    }
}

impl SearchResults {
    /// No results.
    pub fn new() -> (found: SearchResults)
        ensures
            found@.len() == 0,
    {
        SearchResults { results: Vec::new() }
    }

    /// Searches `index`.
    ///
    /// Fails where the query does not compile. Otherwise the result holds, in
    /// the order of the index, each file that lies under the scope, has the
    /// filetype and matches the query somewhere in its path. The paths are
    /// those of the index: whether they still exist is not looked at here.
    pub fn search(index: &Index, options: &SearchOptions) -> (outcome: Result<
        SearchResults,
        SearchError,
    >)
        requires
            options.query is Some,
        ensures
            options@.decides(index@.files, outcome),
    {
        let query: &String = match &options.query {
            Some(query) => query,
            None => unreached(),
        };
        let regex = match compile(query.as_str()) {
            Ok(regex) => regex,
            Err(error) => {
                return Err(SearchError::InvalidPattern(describe(&error)));
            },
        };
        let ghost files = index@.files;
        let ghost chosen = |file: Seq<char>| options@.selects(file);
        let mut found = SearchResults::new();
        let mut at: usize = 0;
        proof {
            reveal(Seq::filter);
            assert(files.take(0).filter(chosen) =~= found@);
        }
        while at < index.files.len()
            invariant
                at <= index.files.len(),
                files == index@.files,
                options@.pattern == Some(query@),
                chosen == |file: Seq<char>| options@.selects(file),
                forall|text: Seq<char>| #[trigger]
                    regex_accepts(regex, text) == pattern_matches(query@, text),
                found@ == files.take(at as int).filter(chosen),
            decreases index.files.len() - at,
        {
            let file: &String = &index.files[at];
            let ghost before = found@;
            proof {
                reveal(Seq::filter);
                assert(files.take(at + 1).drop_last() =~= files.take(at as int));
                assert(files.take(at + 1).last() == file@);
            }
            if Self::is_under_path(file.as_str(), options.path.as_ref()) && Self::is_filetype(
                file.as_str(),
                options.filetype.as_ref(),
            ) && is_match(&regex, file.as_str()) {
                found.results.push(file.clone());
                assert(found@ =~= before.push(file@));
            }
            at = at + 1;
        }
        assert(files.take(at as int) =~= files);
        Ok(found)
    }

    /// Searches the index that was found in store, if one was.
    ///
    /// Without an index the search fails, whatever the query. With one it is
    /// the search of that index.
    pub fn search_stored(stored: Option<&Index>, options: &SearchOptions) -> (outcome: Result<
        SearchResults,
        SearchError,
    >)
        requires
            stored is Some ==> options.query is Some,
        ensures
            match stored {
                Some(index) => options@.decides(index@.files, outcome),
                None => outcome matches Err(error) && error is MissingIndex,
            },
    {
        match stored {
            Some(index) => Self::search(index, options),
            None => Err(SearchError::MissingIndex),
        }
    }

    /// The results that are left once each selected path has been looked up
    /// again: `outcomes` holds, for each, the path it resolved to, or `None`
    /// where it is gone. The paths that are gone are dropped, the others
    /// stay in order.
    pub fn from_resolved(outcomes: Vec<Option<String>>) -> (found: SearchResults)
        ensures
            found@ == resolved(outcomes.deep_view()),
    {
        let mut found = SearchResults::new();
        keep_resolved(&mut found.results, outcomes);
        assert(found@ =~= resolved(outcomes.deep_view()));
        found
    }

    /// Tells whether `file` lies under `path`, whole components only.
    /// Without a path every file does.
    pub fn is_under_path(file: &str, path: Option<&String>) -> (under: bool)
        ensures
            under == under_scope(file@, path.deep_view()),
    {
        match path {
            Some(base) => starts_with(file, base.as_str()),
            None => true,
        }
    }

    /// Tells whether the extension of `file` is `filetype`, letter for
    /// letter. Without a filetype every file passes; with one, a file without
    /// an extension does not.
    pub fn is_filetype(file: &str, filetype: Option<&String>) -> (same: bool)
        ensures
            same == of_filetype(file@, filetype.deep_view()),
    {
        match filetype {
            Some(wanted) => match extension(file) {
                Some(found) => found.eq(wanted.as_str()),
                None => false,
            },
            None => true,
        }
    }

    /// The number of results.
    pub fn count(&self) -> (n: usize)
        ensures
            n == self@.len(),
    {
        self.results.len()
    }

    /// Writes the results out, one path on a line.
    ///
    /// A path loses the extended-length marker that Windows puts before it.
    /// The text as a whole is trimmed, so it ends without a line feed.
    pub fn format(&self) -> (text: String)
        ensures
            text@ == report(self@),
    {
        let mut buffer = String::new();
        let mut at: usize = 0;
        proof {
            reveal_strlit("\n");
            assert(self@.take(0) =~= Seq::<Seq<char>>::empty());
        }
        while at < self.results.len()
            invariant
                at <= self.results.len(),
                "\n"@ == seq!['\n'],
                buffer@ == report_lines(self@.take(at as int)),
            decreases self.results.len() - at,
        {
            proof {
                assert(self@.take(at + 1).drop_last() =~= self@.take(at as int));
                assert(self@.take(at + 1).last() == self.results[at as int]@);
            }
            buffer.append(strip_verbatim_prefix(self.results[at].as_str()));
            buffer.append("\n");
            at = at + 1;
        }
        assert(self@.take(at as int) =~= self@);
        trim(buffer.as_str()).to_owned()
    }
}

} // verus!
