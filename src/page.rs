//! Classification of a registry lookup page by the markers in its markup.

use vstd::prelude::*;
use crate::status::NifStatus;
use crate::text::{chars_of, contains_phrase, find_phrase};

verus! {

/// The alert block that reports an invalid number.
pub const ERROR_MARKER: &'static str = ".alert-message.error.block-message";

/// The alert block that reports a valid number.
pub const SUCCESS_MARKER: &'static str = ".alert-message.success.block-message";

/// The container that lists several entities.
pub const RESULTS_MARKER: &'static str = "#search-results";

/// The title of an entity.
pub const TITLE_MARKER: &'static str = ".search-title";

/// The large display of the number itself.
pub const BIG_NIF_MARKER: &'static str = ".big-nif";

/// What the success block says when no entity is associated with a valid number.
pub const UNKNOWN_ENTITY_PHRASE: &'static str =
    "O NIF indicado é válido mas não conseguimos determinar a entidade associada.";

/// One of the selectors that the classification queries. Parsing a selector
/// recurses without bound into nested groups, so the query is made only with
/// these fixed selectors.
pub open spec fn is_marker(s: Seq<char>) -> bool {
    ||| s == ERROR_MARKER@
    ||| s == SUCCESS_MARKER@
    ||| s == RESULTS_MARKER@
    ||| s == TITLE_MARKER@
    ||| s == BIG_NIF_MARKER@
}

/// Whether the HTML document parsed from `body` has an element that matches
/// the CSS selector `selector`.
pub uninterp spec fn page_has_match(body: Seq<char>, selector: Seq<char>) -> bool;

/// The text of the first element of the document parsed from `body` that
/// matches `selector`.
pub uninterp spec fn first_match_text(body: Seq<char>, selector: Seq<char>) -> Seq<char>;

/// Whether the first element of the document parsed from `body` that matches
/// `outer` has a descendant that matches `inner`.
pub uninterp spec fn first_match_has(body: Seq<char>, outer: Seq<char>, inner: Seq<char>) -> bool;

/// Relies on scraper 0.27: `Html::parse_document` parses `body`, `Selector::parse`
/// reads the selectors, `Html::select` yields the first element that matches
/// `outer`, `ElementRef::text` gives its text and `ElementRef::select` looks for
/// a descendant that matches `inner`. The results depend on the three strings
/// alone. An `outer` that does not parse matches nothing, an `inner` that does not
/// parse matches no descendant.
#[verifier::external_body]
fn first_match(body: &str, outer: &str, inner: &str) -> (r: Option<(String, bool)>)
    requires
        is_marker(outer@),
        is_marker(inner@),
    ensures
        r is Some == page_has_match(body@, outer@),
        r matches Some(found) ==> found.0@ == first_match_text(body@, outer@) && found.1
            == first_match_has(body@, outer@, inner@),
{
    let doc = scraper::Html::parse_document(body);
    let outer = match scraper::Selector::parse(outer) {
        Ok(s) => s,
        Err(_) => return None,
    };
    let inner = scraper::Selector::parse(inner).ok();
    match doc.select(&outer).next() {
        Some(e) => Some((e.text().collect::<String>(), match &inner {
            Some(i) => e.select(i).next().is_some(),
            None => false,
        })),
        None => None,
    }
}

/// What the classification reads from a page: one entry per marker.
pub struct PageMarkers {
    /// An error block is present.
    pub error_block: bool,
    /// The text of the first success block, where there is one.
    pub success_text: Option<String>,
    /// The first results container holds at least one entity title.
    pub results_with_title: bool,
    /// The large display of the number is present.
    pub big_nif: bool,
    /// An entity title is present anywhere.
    pub search_title: bool,
}

/// The success block says that no entity is associated with the number.
pub open spec fn says_unknown_entity(m: PageMarkers) -> bool {
    m.success_text matches Some(t) && contains_phrase(t@, UNKNOWN_ENTITY_PHRASE@)
}

/// The status that the markers call for, the first rule that holds deciding.
pub open spec fn status_of_markers(m: PageMarkers) -> NifStatus {
    if m.error_block {
        NifStatus::Error
    } else if says_unknown_entity(m) {
        NifStatus::ValidUnknown
    } else if m.results_with_title {
        NifStatus::MultipleResults
    } else if m.big_nif && m.search_title {
        NifStatus::ValidKnown
    } else {
        NifStatus::Unknown
    }
}

/// `m` holds what the page `body` shows.
pub open spec fn markers_of(body: Seq<char>, m: PageMarkers) -> bool {
    &&& m.error_block == page_has_match(body, ERROR_MARKER@)
    &&& m.success_text is Some == page_has_match(body, SUCCESS_MARKER@)
    &&& m.success_text matches Some(t) ==> t@ == first_match_text(body, SUCCESS_MARKER@)
    &&& m.results_with_title == (page_has_match(body, RESULTS_MARKER@) && first_match_has(
        body,
        RESULTS_MARKER@,
        TITLE_MARKER@,
    ))
    &&& m.big_nif == page_has_match(body, BIG_NIF_MARKER@)
    &&& m.search_title == page_has_match(body, TITLE_MARKER@)
}

/// The status of the page `body`.
pub open spec fn page_status(body: Seq<char>) -> NifStatus {
    if page_has_match(body, ERROR_MARKER@) {
        NifStatus::Error
    } else if page_has_match(body, SUCCESS_MARKER@) && contains_phrase(
        first_match_text(body, SUCCESS_MARKER@),
        UNKNOWN_ENTITY_PHRASE@,
    ) {
        NifStatus::ValidUnknown
    } else if page_has_match(body, RESULTS_MARKER@) && first_match_has(
        body,
        RESULTS_MARKER@,
        TITLE_MARKER@,
    ) {
        NifStatus::MultipleResults
    } else if page_has_match(body, BIG_NIF_MARKER@) && page_has_match(body, TITLE_MARKER@) {
        NifStatus::ValidKnown
    } else {
        NifStatus::Unknown
    }
}

/// An error block decides, whatever other markers the page holds.
pub proof fn error_marker_wins(body: Seq<char>)
    requires
        page_has_match(body, ERROR_MARKER@),
    ensures
        page_status(body) == NifStatus::Error,
{
}

/// A page with no error block, no success block, no results container and no
/// large display of the number is `Unknown`.
pub proof fn no_marker_gives_unknown(body: Seq<char>)
    requires
        !page_has_match(body, ERROR_MARKER@),
        !page_has_match(body, SUCCESS_MARKER@),
        !page_has_match(body, RESULTS_MARKER@),
        !page_has_match(body, BIG_NIF_MARKER@),
    ensures
        page_status(body) == NifStatus::Unknown,
{
}

/// The status of the first rule whose condition holds, or `Unknown`.
pub open spec fn first_rule_status(rules: Seq<(bool, NifStatus)>) -> NifStatus
    decreases rules.len(),
{
    if rules.len() == 0 {
        NifStatus::Unknown
    } else if rules[0].0 {
        rules[0].1
    } else {
        first_rule_status(rules.drop_first())
    }
}

/// Goes through `rules` in order and returns the status of the first one whose
/// condition holds; `Unknown` where none does.
pub fn first_rule(rules: &Vec<(bool, NifStatus)>) -> (r: NifStatus)
    ensures
        r == first_rule_status(rules@),
{
    let mut i: usize = 0;
    assert(rules@.subrange(0, rules@.len() as int) =~= rules@);
    while i < rules.len()
        invariant
            i <= rules@.len(),
            first_rule_status(rules@) == first_rule_status(rules@.subrange(i as int, rules@.len() as int)),
        decreases rules@.len() - i,
    {
        let ghost rest = rules@.subrange(i as int, rules@.len() as int);
        if rules[i].0 {
            return rules[i].1;
        }
        assert(rest.drop_first() =~= rules@.subrange(i + 1, rules@.len() as int));
        i += 1;
    }
    NifStatus::Unknown
}

/// The rules of classification, in the order in which they decide.
pub fn marker_rules(m: &PageMarkers) -> (rules: Vec<(bool, NifStatus)>)
    ensures
        rules@ == seq![
            (m.error_block, NifStatus::Error),
            (says_unknown_entity(*m), NifStatus::ValidUnknown),
            (m.results_with_title, NifStatus::MultipleResults),
            (m.big_nif && m.search_title, NifStatus::ValidKnown),
        ],
{
    let unknown_entity = match &m.success_text {
        Some(t) => find_phrase(&chars_of(t.as_str()), &chars_of(UNKNOWN_ENTITY_PHRASE)),
        None => false,
    };
    let rules = vec![
        (m.error_block, NifStatus::Error),
        (unknown_entity, NifStatus::ValidUnknown),
        (m.results_with_title, NifStatus::MultipleResults),
        (m.big_nif && m.search_title, NifStatus::ValidKnown),
    ];
    assert(rules@ =~= seq![
        (m.error_block, NifStatus::Error),
        (says_unknown_entity(*m), NifStatus::ValidUnknown),
        (m.results_with_title, NifStatus::MultipleResults),
        (m.big_nif && m.search_title, NifStatus::ValidKnown),
    ]);
    rules
}

/// Classifies a page from its markers.
pub fn classify_markers(m: &PageMarkers) -> (r: NifStatus)
    ensures
        r == status_of_markers(*m),
{
    let rules = marker_rules(m);
    let r = first_rule(&rules);
    proof {
        reveal_with_fuel(first_rule_status, 5);
    }
    r
}

/// Reads the markers of the page `body`.
pub fn read_markers(body: &str) -> (m: PageMarkers)
    ensures
        markers_of(body@, m),
{
    let error_block = first_match(body, ERROR_MARKER, TITLE_MARKER).is_some();
    let success_text = match first_match(body, SUCCESS_MARKER, TITLE_MARKER) {
        Some(found) => Some(found.0),
        None => None,
    };
    let results_with_title = match first_match(body, RESULTS_MARKER, TITLE_MARKER) {
        Some(found) => found.1,
        None => false,
    };
    let big_nif = first_match(body, BIG_NIF_MARKER, TITLE_MARKER).is_some();
    let search_title = first_match(body, TITLE_MARKER, TITLE_MARKER).is_some();
    PageMarkers { error_block, success_text, results_with_title, big_nif, search_title }
}

/// Classifies the HTML page `body` that a lookup returned.
pub fn classify_page(body: &str) -> (r: NifStatus)
    ensures
        r == page_status(body@),
{
    let m = read_markers(body);
    classify_markers(&m)
}

} // verus!
