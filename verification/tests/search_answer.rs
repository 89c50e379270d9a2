use agent_core::search::{
    search_query, select_answer, Member, SearchQuery, SearchResult, SEARCH_ENDPOINT,
};

fn text(value: &str) -> Member {
    Member::Text(value.to_string())
}

fn result(answer: Member, snippet: Member, highlighted_word: Member, organic: Member) -> SearchResult {
    SearchResult { answer, snippet, highlighted_word, organic_snippet: organic }
}

#[test]
fn the_answer_box_answer_comes_first() {
    let found = result(text("74"), text("snippet"), text("word"), text("organic"));
    assert_eq!(select_answer(&found), Some("74".to_string()));
}

#[test]
fn the_snippet_comes_second() {
    let found = result(Member::Absent, text("snippet"), text("word"), text("organic"));
    assert_eq!(select_answer(&found), Some("snippet".to_string()));
}

#[test]
fn the_highlighted_word_comes_third() {
    let found = result(Member::Absent, Member::Absent, text("word"), text("organic"));
    assert_eq!(select_answer(&found), Some("word".to_string()));
}

#[test]
fn the_first_organic_result_comes_last() {
    let found = result(Member::Absent, Member::Absent, Member::Absent, text("organic"));
    assert_eq!(select_answer(&found), Some("organic".to_string()));
}

#[test]
fn a_result_without_any_member_has_no_answer() {
    let found = result(Member::Absent, Member::Absent, Member::Absent, Member::Absent);
    assert_eq!(select_answer(&found), None);
    let found = result(Member::Absent, Member::Absent, Member::Absent, Member::NotText);
    assert_eq!(select_answer(&found), None);
}

#[test]
fn a_member_that_is_no_text_blocks_the_later_ones() {
    let found = result(Member::NotText, text("snippet"), text("word"), text("organic"));
    assert_eq!(select_answer(&found), None);
    let found = result(Member::Absent, Member::NotText, text("word"), text("organic"));
    assert_eq!(select_answer(&found), None);
    let found = result(Member::Absent, Member::Absent, Member::NotText, text("organic"));
    assert_eq!(select_answer(&found), None);
}

#[test]
fn a_query_asks_the_fixed_engine_for_the_question() {
    assert_eq!(SEARCH_ENDPOINT, "https://serpapi.com/search");
    assert_eq!(
        search_query("How old was Muhammad Ali when he died?", "KEY"),
        SearchQuery {
            engine: "google".to_string(),
            q: "How old was Muhammad Ali when he died?".to_string(),
            google_domain: "google.com".to_string(),
            gl: "us".to_string(),
            hl: "en".to_string(),
            api_key: "KEY".to_string(),
        }
    );
}
