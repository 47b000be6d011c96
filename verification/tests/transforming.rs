use resub::driver::{setup, Config, Mode, SetupError};
use resub::pattern::Matcher;
use resub::transform::{transform_content, transform_stream, Output};

fn config(pattern: &str, replacement: &str, path: &str) -> Config {
    Config {
        pattern: String::from(pattern),
        replacement: String::from(replacement),
        path: String::from(path),
        glob: None,
        to_stdout: false,
        verbose: false,
        max_depth: -1,
        include_hidden: false,
    }
}

#[test]
fn in_place_literal_replace() {
    let m = Matcher::compile("foo").unwrap();
    let out = transform_content(&m, "baz", "foo bar foo", false);
    match out {
        Output::Write(text) => assert_eq!(text, "baz bar baz"),
        Output::Print(_) => panic!("in-place mode must write the file back"),
    }
}

#[test]
fn idempotent_literal_replace() {
    let m = Matcher::compile("foo").unwrap();
    let once = transform_stream(&m, "baz", "foo bar foo");
    assert_eq!(once, "baz bar baz");
    let twice = transform_stream(&m, "baz", once.as_str());
    assert_eq!(twice, once);
}

#[test]
fn capture_group_replacement_to_stdout() {
    let m = Matcher::compile(r"(\d+)-(\d+)-(\d+)").unwrap();
    let out = transform_content(&m, "$3/$2/$1", "2023-01-05", true);
    match out {
        Output::Print(text) => assert_eq!(text, "05/01/2023"),
        Output::Write(_) => panic!("stdout mode must never write the file"),
    }
}

#[test]
fn stdout_mode_never_writes() {
    let m = Matcher::compile("a").unwrap();
    let out = transform_content(&m, "b", "a a a", true);
    assert!(matches!(out, Output::Print(_)));
}

#[test]
fn stream_mode_replaces_hello() {
    let m = Matcher::compile("hello").unwrap();
    let out = transform_stream(&m, "world", "hello");
    assert_eq!(out, "world");
}

#[test]
fn no_match_leaves_text_unchanged() {
    let m = Matcher::compile("zzz").unwrap();
    let out = transform_stream(&m, "x", "foo bar");
    assert_eq!(out, "foo bar");
}

#[test]
fn invalid_pattern_is_rejected() {
    assert!(Matcher::compile("(").is_none());
    let r = setup(config("(", "x", "."));
    assert!(matches!(r, Err(SetupError::InvalidPattern)));
}

#[test]
fn invalid_glob_is_rejected_in_tree_mode() {
    let mut c = config("a", "b", ".");
    c.glob = Some(String::from("a**b"));
    let r = setup(c);
    assert!(matches!(r, Err(SetupError::InvalidGlob)));
}

#[test]
fn invalid_glob_is_ignored_in_stream_mode() {
    let mut c = config("a", "b", "-");
    c.glob = Some(String::from("a**b"));
    let r = setup(c);
    assert!(r.is_ok());
    assert!(matches!(r.unwrap().mode, Mode::Stream));
}

#[test]
fn setup_picks_stream_mode_for_dash() {
    let plan = setup(config("hello", "world", "-")).unwrap();
    assert!(matches!(plan.mode, Mode::Stream));
    let out = transform_stream(&plan.matcher, plan.replacement.as_str(), "hello");
    assert_eq!(out, "world");
}

#[test]
fn setup_picks_tree_mode_for_paths() {
    let plan = setup(config("a", "b", "some/dir")).unwrap();
    assert!(matches!(plan.mode, Mode::Tree));
    let plan2 = setup(config("a", "b", "--")).unwrap();
    assert!(matches!(plan2.mode, Mode::Tree));
    let plan3 = setup(config("a", "b", "")).unwrap();
    assert!(matches!(plan3.mode, Mode::Tree));
}

#[test]
fn setup_keeps_the_options() {
    let mut c = config("a+", "b", "dir");
    c.to_stdout = true;
    c.verbose = true;
    c.max_depth = 2;
    c.include_hidden = true;
    c.glob = Some(String::from("*.rs"));
    let plan = setup(c).unwrap();
    assert!(plan.to_stdout);
    assert!(plan.verbose);
    assert_eq!(plan.filters.max_depth, 2);
    assert!(plan.filters.include_hidden);
    assert!(plan.filters.glob.is_some());
    assert_eq!(plan.replacement, "b");
}
