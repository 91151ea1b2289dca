use fnd::Check;
use fnd::Flags;
use fnd::PathCheck;
use fnd::Size;
use fnd::SizeComparison;

fn flags(query: Option<&str>, regex: bool, case_insensitive: bool) -> Flags {
    Flags {
        query: query.map(|q| q.to_string()),
        all: false,
        regex,
        hidden: false,
        case_insensitive,
        size: None,
        depth: None,
    }
}

#[test]
fn test_no_query_accepts_every_path() {
    let check = Check::new(&flags(None, false, false)).unwrap();
    assert!(check.check("./src/cli.rs", None));
    assert!(check.check("./README.md", Some(42)));
    assert!(check.check("", None));
}

#[test]
fn test_dot_query_accepts_every_path() {
    let check = Check::new(&flags(Some("."), false, false)).unwrap();
    assert!(check.check("./src/cli.rs", None));
    assert!(check.check("no-dot-anywhere", None));
}

#[test]
fn test_substring_query() {
    let check = Check::new(&flags(Some("cli"), false, false)).unwrap();
    assert!(check.check("./src/cli.rs", None));
    assert!(!check.check("./src/main.rs", None));
}

#[test]
fn test_case_insensitive_substring_query() {
    let check = Check::new(&flags(Some("CLI"), false, true)).unwrap();
    assert!(check.check("./src/cli.rs", None));
    let readme = Check::new(&flags(Some("readme"), false, true)).unwrap();
    assert!(readme.check("./README.md", None));
}

#[test]
fn test_regex_query() {
    let check = Check::new(&flags(Some("src/\\S{2}i\\.rs$"), true, false)).unwrap();
    assert!(check.check("./src/cli.rs", None));
    assert!(!check.check("./src/main.rs", None));
    let upper = Check::new(&flags(Some("src/\\S{2}I\\.RS$"), true, false)).unwrap();
    assert!(!upper.check("./src/cli.rs", None));
}

#[test]
fn test_case_insensitive_regex_query() {
    let check = Check::new(&flags(Some("src/\\S{2}I\\.RS$"), true, true)).unwrap();
    assert!(check.check("./src/cli.rs", None));
}

#[test]
fn test_invalid_regex_is_rejected_before_any_traversal() {
    assert!(Check::new(&flags(Some("foo(bar"), true, false)).is_err());
    assert!(PathCheck::new(&flags(Some("foo(bar"), true, false)).is_err());
    assert!(Check::new(&flags(Some("foo(bar"), false, false)).is_ok());
}

#[test]
fn test_size_comparison_is_anded_with_the_predicate() {
    let mut f = flags(Some("cli"), false, false);
    f.size = Some(SizeComparison::GreaterThan(Size::Kilobyte(1)));
    let check = Check::new(&f).unwrap();
    assert!(check.check("./src/cli.rs", Some(2048)));
    assert!(!check.check("./src/cli.rs", Some(100)));
    assert!(!check.check("./src/main.rs", Some(2048)));
}

#[test]
fn test_missing_metadata_fails_closed_when_size_is_configured() {
    let mut f = flags(None, false, false);
    f.size = Some(SizeComparison::GreaterThan(Size::Kilobyte(0)));
    let check = Check::new(&f).unwrap();
    assert!(!check.check("./src/cli.rs", None));
    assert!(check.check("./src/cli.rs", Some(1)));
}

#[test]
fn test_walk_policy_default_is_conservative() {
    let p = flags(None, false, false).walk_policy();
    assert!(p.use_ignore_rules);
    assert!(!p.show_hidden);
    assert_eq!(p.max_depth, None);
    assert_eq!(p.threads, 20);
}

#[test]
fn test_walk_policy_hidden_keeps_ignore_rules() {
    let mut f = flags(None, false, false);
    f.hidden = true;
    let p = f.walk_policy();
    assert!(p.use_ignore_rules);
    assert!(p.show_hidden);
}

#[test]
fn test_walk_policy_all_lifts_both() {
    let mut f = flags(None, false, false);
    f.all = true;
    let p = f.walk_policy();
    assert!(!p.use_ignore_rules);
    assert!(p.show_hidden);
}

#[test]
fn test_walk_policy_carries_depth_bound() {
    let mut f = flags(None, false, false);
    f.depth = Some(1);
    let p = f.walk_policy();
    assert_eq!(p.max_depth, Some(1));
    f.depth = Some(3);
    assert_eq!(f.walk_policy().max_depth, Some(3));
}
