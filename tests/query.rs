use tag_player::query::{build_query, escape_query};

#[test]
fn escape_quotes_and_backslashes() {
    assert_eq!(escape_query("plain"), "plain");
    assert_eq!(escape_query(r#"say "hi""#), r#"say \"hi\""#);
    assert_eq!(escape_query(r"a\b"), r"a\\b");
    assert_eq!(escape_query(r#"\""#), r#"\\\""#);
    assert_eq!(escape_query(""), "");
    assert_eq!(escape_query("Motörhead"), "Motörhead");
}

#[test]
fn query_joins_known_terms() {
    assert_eq!(
        build_query(Some("Smells Like Teen Spirit"), Some("Nirvana"), Some("Nevermind")),
        r#"recording:"Smells Like Teen Spirit" AND artist:"Nirvana" AND release:"Nevermind""#
    );
    assert_eq!(build_query(None, Some("Nirvana"), None), r#"artist:"Nirvana""#);
    assert_eq!(
        build_query(Some("A"), None, Some("B")),
        r#"recording:"A" AND release:"B""#
    );
    assert_eq!(build_query(None, None, None), "");
    assert_eq!(
        build_query(Some(r#"12" Mix"#), None, None),
        r#"recording:"12\" Mix""#
    );
}
