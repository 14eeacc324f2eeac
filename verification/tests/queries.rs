use minibooru::error::Error;
use minibooru::query::{white_space, Query, Sort};

fn tags(q: &Query) -> Vec<&str> {
    q.tags.iter().map(|t| t.as_str()).collect()
}

#[test]
fn a_blank_query_asks_for_everything() {
    for raw in ["", " ", "   ", "\t\n ", "\u{3000}\u{00A0}"] {
        let q = Query::parse(raw).ok().unwrap();
        assert!(q.tags.is_empty());
        assert_eq!(q.sort, Sort::Date);
    }
    let q = Query::default();
    assert!(q.tags.is_empty());
    assert_eq!(q.sort, Sort::Date);
    assert_eq!(Sort::default(), Sort::Date);
}

#[test]
fn words_are_tags() {
    let q = Query::parse("cat dog").ok().unwrap();
    assert_eq!(tags(&q), vec!["cat", "dog"]);
    assert_eq!(q.sort, Sort::Date);
}

#[test]
fn white_space_at_the_ends_is_dropped() {
    let q = Query::parse("  \tcat dog\n").ok().unwrap();
    assert_eq!(tags(&q), vec!["cat", "dog"]);
    let q = Query::parse("\u{2003}solo\u{00A0}").ok().unwrap();
    assert_eq!(tags(&q), vec!["solo"]);
}

#[test]
fn only_single_spaces_separate_words() {
    let q = Query::parse("a  b").ok().unwrap();
    assert_eq!(tags(&q), vec!["a", "", "b"]);
    let q = Query::parse("a\tb").ok().unwrap();
    assert_eq!(tags(&q), vec!["a\tb"]);
}

#[test]
fn sort_sets_the_order() {
    let q = Query::parse("sort:score cat").ok().unwrap();
    assert_eq!(tags(&q), vec!["cat"]);
    assert_eq!(q.sort, Sort::Score);
    let q = Query::parse("cat sort:score dog sort:date").ok().unwrap();
    assert_eq!(tags(&q), vec!["cat", "dog"]);
    assert_eq!(q.sort, Sort::Date);
}

#[test]
fn an_unknown_order_is_an_error() {
    match Query::parse("cat sort:bogus dog") {
        Err(Error::Query(why)) => assert_eq!(why, "Invalid sort 'bogus'"),
        _ => panic!("expected a query error"),
    }
    match Query::parse("sort:") {
        Err(Error::Query(why)) => assert_eq!(why, "Invalid sort ''"),
        _ => panic!("expected a query error"),
    }
    match Query::parse("sort:date:x") {
        Err(Error::Query(why)) => assert_eq!(why, "Invalid sort 'date:x'"),
        _ => panic!("expected a query error"),
    }
    match Query::parse("sort:Score") {
        Err(Error::Query(why)) => assert_eq!(why, "Invalid sort 'Score'"),
        _ => panic!("expected a query error"),
    }
}

#[test]
fn other_settings_are_passed_over() {
    let q = Query::parse("rating:safe cat :x y:").ok().unwrap();
    assert_eq!(tags(&q), vec!["cat"]);
    assert_eq!(q.sort, Sort::Date);
}

#[test]
fn tags_may_hold_any_characters() {
    let q = Query::parse("caf\u{e9} \u{732b}").ok().unwrap();
    assert_eq!(tags(&q), vec!["caf\u{e9}", "\u{732b}"]);
}

#[test]
fn sort_try_from_names() {
    assert!(matches!(Sort::try_from("date"), Ok(Sort::Date)));
    assert!(matches!(Sort::try_from("score"), Ok(Sort::Score)));
    match Sort::try_from("random") {
        Err(Error::Query(why)) => assert_eq!(why, "Invalid sort 'random'"),
        _ => panic!("expected a query error"),
    }
}

#[test]
fn white_space_is_what_the_standard_library_says() {
    for code in 0u32..0x3100 {
        if let Some(c) = char::from_u32(code) {
            assert_eq!(white_space(c), c.is_whitespace());
        }
    }
    assert!(!white_space('\u{10FFFF}'));
}
