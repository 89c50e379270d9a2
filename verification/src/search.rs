//! The search tool: what it asks of the search service, and which part of
//! the service's result it hands back as the short textual answer.

use crate::text::optional_text;
use vstd::prelude::*;

verus! {

/// Where the search service is reached.
pub const SEARCH_ENDPOINT: &'static str = "https://serpapi.com/search";

/// The search engine that the service is to ask.
pub const SEARCH_ENGINE: &'static str = "google";

/// The domain of that engine.
pub const SEARCH_DOMAIN: &'static str = "google.com";

/// The country that the search is made for.
pub const SEARCH_COUNTRY: &'static str = "us";

/// The language that the search is made in.
pub const SEARCH_LANGUAGE: &'static str = "en";

/// What the search service is asked.
#[derive(Debug, PartialEq, Eq)]
pub struct SearchQuery {
    pub engine: String,
    pub q: String,
    pub google_domain: String,
    pub gl: String,
    pub hl: String,
    pub api_key: String,
}

/// The model of what the search service is asked.
pub struct SearchQueryView {
    pub engine: Seq<char>,
    pub q: Seq<char>,
    pub google_domain: Seq<char>,
    pub gl: Seq<char>,
    pub hl: Seq<char>,
    pub api_key: Seq<char>,
}

impl View for SearchQuery {
    type V = SearchQueryView;

    open spec fn view(&self) -> SearchQueryView {
        SearchQueryView {
            engine: self.engine@,
            q: self.q@,
            google_domain: self.google_domain@,
            gl: self.gl@,
            hl: self.hl@,
            api_key: self.api_key@,
        }
    }
}

/// The query that asks `question`: a search with the fixed engine, domain,
/// country and language, under the caller's key.
pub open spec fn query_for(question: Seq<char>, api_key: Seq<char>) -> SearchQueryView {
    SearchQueryView {
        engine: SEARCH_ENGINE@,
        q: question,
        google_domain: SEARCH_DOMAIN@,
        gl: SEARCH_COUNTRY@,
        hl: SEARCH_LANGUAGE@,
        api_key,
    }
}

/// Builds the query that asks `question` of the search service.
pub fn search_query(question: &str, api_key: &str) -> (query: SearchQuery)
    ensures
        query@ == query_for(question@, api_key@),
{
    SearchQuery {
        engine: SEARCH_ENGINE.to_owned(),
        q: question.to_owned(),
        google_domain: SEARCH_DOMAIN.to_owned(),
        gl: SEARCH_COUNTRY.to_owned(),
        hl: SEARCH_LANGUAGE.to_owned(),
        api_key: api_key.to_owned(),
    }
}

/// One member of a search result, as far as the choice of the answer reads it.
#[derive(Debug, PartialEq, Eq)]
pub enum Member {
    /// The result has no such member.
    Absent,
    /// The member is there and is not a text.
    NotText,
    /// The member is there and is this text.
    Text(String),
}

/// The model of a member of a search result.
pub enum MemberView {
    Absent,
    NotText,
    Text(Seq<char>),
}

impl View for Member {
    type V = MemberView;

    open spec fn view(&self) -> MemberView {
        match self {
            Member::Absent => MemberView::Absent,
            Member::NotText => MemberView::NotText,
            Member::Text(text) => MemberView::Text(text@),
        }
    }
}

impl Clone for Member {
    fn clone(&self) -> (copy: Self)
        ensures
            copy@ == self@,
    {
        match self {
            Member::Absent => Member::Absent,
            Member::NotText => Member::NotText,
            Member::Text(text) => Member::Text(text.clone()),
        }
    }
}

/// The members of a search result that can hold its answer.
#[derive(Debug, PartialEq, Eq)]
pub struct SearchResult {
    /// The answer of the answer box.
    pub answer: Member,
    /// The snippet of the answer box.
    pub snippet: Member,
    /// The first highlighted word of the answer box's snippet.
    pub highlighted_word: Member,
    /// The snippet of the first organic result.
    pub organic_snippet: Member,
}

/// The model of a search result.
pub struct SearchResultView {
    pub answer: MemberView,
    pub snippet: MemberView,
    pub highlighted_word: MemberView,
    pub organic_snippet: MemberView,
}

impl View for SearchResult {
    type V = SearchResultView;

    open spec fn view(&self) -> SearchResultView {
        SearchResultView {
            answer: self.answer@,
            snippet: self.snippet@,
            highlighted_word: self.highlighted_word@,
            organic_snippet: self.organic_snippet@,
        }
    }
}

/// The text of a member, if it is one.
pub open spec fn text_of(member: MemberView) -> Option<Seq<char>> {
    match member {
        MemberView::Text(text) => Some(text),
        _ => None,
    }
}

/// The answer of a search result. The first member that is there decides, in
/// the order answer, snippet, highlighted word: where it is a text, that text
/// is the answer, and where it is not, there is none. Only a result without
/// any of the three falls back on the first organic result.
pub open spec fn answer_of(result: SearchResultView) -> Option<Seq<char>> {
    if !(result.answer is Absent) {
        text_of(result.answer)
    } else if !(result.snippet is Absent) {
        text_of(result.snippet)
    } else if !(result.highlighted_word is Absent) {
        text_of(result.highlighted_word)
    } else {
        text_of(result.organic_snippet)
    }
}

fn text(member: &Member) -> (text: Option<String>)
    ensures
        optional_text(text) == text_of(member@),
{
    match member {
        Member::Text(text) => Some(text.clone()),
        _ => None,
    }
}

fn is_absent(member: &Member) -> (absent: bool)
    ensures
        absent == (member@ is Absent),
{
    match member {
        Member::Absent => true,
        _ => false,
    }
}

/// Picks the short textual answer out of a search result, or finds that the
/// search has no answer.
pub fn select_answer(result: &SearchResult) -> (answer: Option<String>)
    ensures
        optional_text(answer) == answer_of(result@),
{
    if !is_absent(&result.answer) {
        text(&result.answer)
    } else if !is_absent(&result.snippet) {
        text(&result.snippet)
    } else if !is_absent(&result.highlighted_word) {
        text(&result.highlighted_word)
    } else {
        text(&result.organic_snippet)
    }
}

} // verus!
