use rpa_app::params::{SpiderParams, params_json};

fn json_of(page: i32, title: &str, project_type: &str) -> String {
    params_json(
        &SpiderParams { page, title: title.to_string(), project_type: project_type.to_string() },
    )
}

/// What serde_json would emit for the same string, used to cross-check escaping.
fn serde_string_literal(s: &str) -> String {
    serde_json::to_string(&serde_json::Value::String(s.to_string())).unwrap()
}

fn expected_json(page: i32, title: &str, project_type: &str) -> String {
    format!(
        "{{\"page\":{},\"title\":{},\"project_type\":{}}}",
        page,
        serde_string_literal(title),
        serde_string_literal(project_type)
    )
}

#[test]
fn plain_params_encode() {
    assert_eq!(
        json_of(1, "bid notices", "construction"),
        "{\"page\":1,\"title\":\"bid notices\",\"project_type\":\"construction\"}"
    );
}

#[test]
fn empty_strings_encode() {
    assert_eq!(json_of(0, "", ""), "{\"page\":0,\"title\":\"\",\"project_type\":\"\"}");
}

#[test]
fn negative_page_encodes() {
    assert_eq!(json_of(-5, "t", "c"), "{\"page\":-5,\"title\":\"t\",\"project_type\":\"c\"}");
}

#[test]
fn extreme_pages_encode() {
    assert_eq!(json_of(i32::MIN, "", ""), expected_json(i32::MIN, "", ""));
    assert_eq!(json_of(i32::MAX, "", ""), expected_json(i32::MAX, "", ""));
}

#[test]
fn quotes_and_backslashes_match_serde() {
    let title = "a \"quoted\" \\ path";
    assert_eq!(json_of(2, title, "x"), expected_json(2, title, "x"));
}

#[test]
fn control_characters_match_serde() {
    let title = "tab\there\nnewline\rreturn\u{8}bs\u{c}ff\u{1}one\u{1f}last";
    assert_eq!(json_of(3, title, "\u{0}"), expected_json(3, title, "\u{0}"));
}

#[test]
fn non_ascii_text_matches_serde() {
    let title = "中国石油招标投标网";
    let project_type = "工程建设";
    assert_eq!(json_of(7, title, project_type), expected_json(7, title, project_type));
}
