use study_rust::search;
use study_rust::search_case_insensitive;
use study_rust::run_search;
use study_rust::QueryConfig;

#[test]
fn one_result() {
    let query = "duct";
    let content = "\
Rust:
safe, fast, productive.
Pick three.
SAFE, FAST, PRODUCTIVE.";

    assert_eq!(vec!["safe, fast, productive."], search(query, content));
}

#[test]
fn case_insensitive() {
    let query = "duct";
    let content = "\
Rust:
safe, fast, productive.
Pick three.
SAFE, FAST, PRODUCTIVE.";

    assert_eq!(
        vec!["safe, fast, productive.", "SAFE, FAST, PRODUCTIVE.",],
        search_case_insensitive(query, content)
    );
}

#[test]
fn search_strips_carriage_returns_before_newlines() {
    let content = "ab\r\ncd\r\nef";
    assert_eq!(vec!["ab"], search("b", content));
    assert_eq!(vec!["ab", "cd", "ef"], search("", content));
}

#[test]
fn search_empty_query_matches_every_line_once() {
    let content = "first\nsecond\n";
    assert_eq!(vec!["first", "second"], search("", content));
    let empty: Vec<&str> = Vec::new();
    assert_eq!(empty, search("x", ""));
}

#[test]
fn search_no_match_yields_empty() {
    let content = "alpha\nbeta";
    let empty: Vec<&str> = Vec::new();
    assert_eq!(empty, search("gamma", content));
    assert_eq!(empty, search_case_insensitive("gamma", content));
}

#[test]
fn case_insensitive_returns_original_casing() {
    let content = "Hello World\nHELLO AGAIN\ngoodbye";
    assert_eq!(
        vec!["Hello World", "HELLO AGAIN"],
        search_case_insensitive("hello", content)
    );
}

#[test]
fn query_config_rejects_short_argument_lists() {
    let args = vec!["prog".to_string(), "needle".to_string()];
    let r = QueryConfig::new(args, false);
    assert_eq!(r.err(), Some("not enough arguments."));
}

#[test]
fn query_config_reads_query_and_filename() {
    let args = vec![
        "prog".to_string(),
        "needle".to_string(),
        "haystack.txt".to_string(),
    ];
    let config = QueryConfig::new(args, false).ok().unwrap();
    assert_eq!(config.query, "needle");
    assert_eq!(config.filename, "haystack.txt");
    assert!(config.case_sensitive);

    let args = vec![
        "prog".to_string(),
        "needle".to_string(),
        "haystack.txt".to_string(),
    ];
    let config = QueryConfig::new(args, true).ok().unwrap();
    assert!(!config.case_sensitive);
}

#[test]
fn run_search_honours_case_policy() {
    let content = "Duct tape\nproduct\nDUCT";
    let args = vec![
        "prog".to_string(),
        "duct".to_string(),
        "ignored.txt".to_string(),
    ];
    let sensitive = QueryConfig::new(args, false).ok().unwrap();
    assert_eq!(vec!["product"], run_search(&sensitive, content));

    let args = vec![
        "prog".to_string(),
        "duct".to_string(),
        "ignored.txt".to_string(),
    ];
    let insensitive = QueryConfig::new(args, true).ok().unwrap();
    assert_eq!(
        vec!["Duct tape", "product", "DUCT"],
        run_search(&insensitive, content)
    );
}
