use haoyong::text::{decimal_string, join};
use haoyong::{DiagnosticError, HaoyongError, IntoPoemResult};

fn err(message: &str) -> DiagnosticError {
    DiagnosticError::new(message.to_string())
}

fn chain(message: &str, causes: &[&str]) -> DiagnosticError {
    let mut inner: Option<DiagnosticError> = None;
    for c in causes.iter().rev() {
        let node = match inner {
            Some(i) => err(c).with_cause(i),
            None => err(c),
        };
        inner = Some(node);
    }
    match inner {
        Some(i) => err(message).with_cause(i),
        None => err(message),
    }
}

#[test]
fn no_cause_singleline_keeps_separator() {
    let e = err("boom");
    assert_eq!(e.to_detailed_singleline_report(), "boom | ");
}

#[test]
fn no_cause_multiline_keeps_header() {
    let e = err("boom");
    assert_eq!(e.to_detailed_multiline_report(), "boom\n\nCaused By:\n");
}

#[test]
fn three_causes_singleline() {
    let e = chain("top", &["c0", "c1", "c2"]);
    assert_eq!(e.to_detailed_singleline_report(), "top | c0 <<< c1 <<< c2");
}

#[test]
fn one_cause_singleline() {
    let e = chain("top", &["only"]);
    assert_eq!(e.to_detailed_singleline_report(), "top | only");
}

#[test]
fn two_causes_multiline() {
    let e = chain("top", &["c0", "c1"]);
    let r = e.to_detailed_multiline_report();
    assert_eq!(r, "top\n\nCaused By:\n    [1] c0\n    [2] c1");
    let lines: Vec<&str> = r.lines().collect();
    let header = lines.iter().position(|l| *l == "Caused By:").unwrap();
    assert_eq!(lines[header + 1], "    [1] c0");
    assert_eq!(lines[header + 2], "    [2] c1");
}

#[test]
fn multiline_numbers_past_nine() {
    let causes: Vec<String> = (0..12).map(|i| format!("c{i}")).collect();
    let refs: Vec<&str> = causes.iter().map(|s| s.as_str()).collect();
    let e = chain("top", &refs);
    let r = e.to_detailed_multiline_report();
    let lines: Vec<&str> = r.lines().collect();
    assert_eq!(lines[3], "    [1] c0");
    assert_eq!(lines[12], "    [10] c9");
    assert_eq!(lines[14], "    [12] c11");
    assert_eq!(lines.len(), 15);
}

#[test]
fn brief_is_message_at_any_depth() {
    assert_eq!(err("plain").to_brief_report(), "plain");
    assert_eq!(chain("plain", &["a"]).to_brief_report(), "plain");
    assert_eq!(chain("plain", &["a", "b", "c", "d"]).to_brief_report(), "plain");
}

#[test]
fn poem_response_not_found() {
    let e = err("not found").with_code("E_NOT_FOUND".to_string());
    let p = e.into_poem_response();
    assert_eq!(p.code, "E_NOT_FOUND");
    assert_eq!(p.message, "not found");
    assert_eq!(p.detail, "not found | ");
    assert_eq!(p.help, None);
    assert_eq!(p.doc, None);
}

#[test]
fn poem_response_carries_help_doc_and_chain() {
    let e = chain("denied", &["token expired", "clock skew"])
        .with_code("E_AUTH".to_string())
        .with_help("log in again".to_string())
        .with_url("https://example.com/auth".to_string());
    let p = e.into_poem_response();
    assert_eq!(p.code, "E_AUTH");
    assert_eq!(p.message, "denied");
    assert_eq!(p.detail, "denied | token expired <<< clock skew");
    assert_eq!(p.help.as_deref(), Some("log in again"));
    assert_eq!(p.doc.as_deref(), Some("https://example.com/auth"));
}

#[test]
fn map_err_keeps_ok() {
    let r: Result<i32, DiagnosticError> = Ok(42);
    match r.map_err_to_poem_response() {
        Ok(v) => assert_eq!(v, 42),
        Err(_) => panic!("an Ok value must stay Ok"),
    }
}

#[test]
fn map_err_wraps_payload() {
    let make = || err("not found").with_code("E_NOT_FOUND".to_string());
    let direct = make().into_poem_response();
    let r: Result<i32, DiagnosticError> = Err(make());
    match r.map_err_to_poem_response() {
        Ok(_) => panic!("an Err value must stay Err"),
        Err(j) => {
            let p = j.0;
            assert_eq!(p.code, direct.code);
            assert_eq!(p.message, direct.message);
            assert_eq!(p.detail, direct.detail);
            assert_eq!(p.help, direct.help);
            assert_eq!(p.doc, direct.doc);
        }
    }
}

#[test]
fn traversal_visits_each_cause_once() {
    for n in 0..20usize {
        let causes: Vec<String> = (0..n).map(|i| format!("c{i}")).collect();
        let refs: Vec<&str> = causes.iter().map(|s| s.as_str()).collect();
        let e = chain("top", &refs);
        assert_eq!(e.cause_chain(), causes);
    }
}

#[test]
fn join_edges() {
    assert_eq!(join(&vec![], ", "), "");
    assert_eq!(join(&vec!["a".to_string()], ", "), "a");
    assert_eq!(join(&vec!["a".to_string(), "b".to_string(), "c".to_string()], ", "), "a, b, c");
}

#[test]
fn decimal_values() {
    assert_eq!(decimal_string(0), "0");
    assert_eq!(decimal_string(7), "7");
    assert_eq!(decimal_string(10), "10");
    assert_eq!(decimal_string(1234), "1234");
    assert_eq!(decimal_string(usize::MAX), usize::MAX.to_string());
}
