use activity_gist::event::{classify, EventFields, GithubEvents};
use activity_gist::pipeline::{
    build_document, gist_needs_update, join_document, select_lines, ConfigError, PipelineConfig,
};

fn event(tag: &str, public: bool, repo: Option<&str>, action: Option<&str>, number: Option<&str>) -> GithubEvents {
    classify(
        tag,
        EventFields {
            public: Some(public),
            repo_name: repo.map(|s| s.to_string()),
            action: action.map(|s| s.to_string()),
            issue_number: number.map(|s| s.to_string()),
            pr_number: number.map(|s| s.to_string()),
        },
    )
}

const PLACEHOLDER: &str = "☕ No activities recently...";

#[test]
fn no_interesting_event_gives_placeholder() {
    let events = vec![
        event("WatchEvent", true, Some("a/b"), None, None),
        event("PublicEvent", false, Some("a/b"), None, None),
    ];
    assert_eq!(build_document(&events, &PipelineConfig::default()), PLACEHOLDER);
    assert_eq!(build_document(&Vec::new(), &PipelineConfig::default()), PLACEHOLDER);
    assert_eq!(join_document(&Vec::new()), PLACEHOLDER);
}

#[test]
fn equal_document_needs_no_write() {
    assert!(!gist_needs_update("🔓 Made octo/repo public!", "🔓 Made octo/repo public!"));
    assert!(gist_needs_update("a", "b"));
    assert!(gist_needs_update("a", ""));
}

#[test]
fn lines_are_joined_in_feed_order() {
    let events = vec![
        event("PublicEvent", true, Some("octo/one"), None, None),
        event("ForkEvent", true, Some("octo/x"), None, None),
        event("IssuesEvent", true, Some("octo/two"), Some("opened"), Some("42")),
    ];
    assert_eq!(
        build_document(&events, &PipelineConfig::default()),
        "🔓 Made octo/one public!\n❗️ Opened issue #42 in octo/two"
    );
}

#[test]
fn at_most_max_activities_lines() {
    let events: Vec<GithubEvents> = (0..8)
        .map(|i| event("PublicEvent", true, Some(&format!("o/r{i}")), None, None))
        .collect();
    let lines = select_lines(&events, &PipelineConfig::default());
    assert_eq!(lines.len(), 5);
    assert_eq!(lines[0], "🔓 Made o/r0 public!");
    assert_eq!(lines[4], "🔓 Made o/r4 public!");
    let config = PipelineConfig::new(63, 2).unwrap();
    assert_eq!(
        build_document(&events, &config),
        "🔓 Made o/r0 public!\n🔓 Made o/r1 public!"
    );
}

#[test]
fn malformed_event_is_skipped() {
    let events = vec![
        event("PublicEvent", true, None, None, None),
        event("ReleaseEvent", true, Some("o/r"), None, None),
    ];
    assert_eq!(
        build_document(&events, &PipelineConfig::default()),
        "🚀 Shipped a new version of o/r"
    );
}

#[test]
fn lines_are_truncated() {
    let repo = "o/".to_string() + &"r".repeat(60);
    let events = vec![event("PublicEvent", true, Some(&repo), None, None)];
    let lines = select_lines(&events, &PipelineConfig::default());
    assert_eq!(lines.len(), 1);
    assert_eq!(lines[0].chars().count(), 63);
    assert!(lines[0].ends_with("..."));
    assert!(lines[0].starts_with("🔓 Made o/rrr"));
}

#[test]
fn join_separates_with_newlines() {
    let lines = vec!["a".to_string(), "b".to_string(), "c".to_string()];
    assert_eq!(join_document(&lines), "a\nb\nc");
    assert_eq!(join_document(&vec!["only".to_string()]), "only");
}

#[test]
fn config_refuses_short_line_length() {
    assert_eq!(PipelineConfig::new(2, 5), Err(ConfigError::InvalidArgument));
    let c = PipelineConfig::new(3, 1).unwrap();
    assert_eq!(c.max_length, 3);
    assert_eq!(c.max_activities, 1);
    let d = PipelineConfig::default();
    assert_eq!((d.max_length, d.max_activities), (63, 5));
}
