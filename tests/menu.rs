use commit_guide::menu::{commit_types_with_help, display_status, is_commit_type, options, sorted_options};

#[test]
fn menu_options() {
    let o = options();
    assert_eq!(o.len(), 69);
    assert_eq!(o[0], "Init flow");
    assert_eq!(o[68], "Generate or update the changelog");
}

#[test]
fn commit_types_sorted() {
    let t = commit_types_with_help();
    assert_eq!(t.len(), 68);
    assert!(t.windows(2).all(|w| w[0] <= w[1]));
    assert_eq!(t[0], "Aphelion: Immediate goals, but is necessary for long-term progress");
    assert!(t.iter().any(|x| x == "Star: New feature or enhancement"));
}

#[test]
fn status_lines() {
    assert_eq!(display_status(Some("src/lib.rs"), "WT_MODIFIED"), "src/lib.rs: WT_MODIFIED");
    assert_eq!(display_status(None, "WT_NEW"), "unknown: WT_NEW");
}

#[test]
fn menu_sorted() {
    let o = sorted_options();
    assert_eq!(o.len(), 69);
    assert!(o.windows(2).all(|w| w[0] <= w[1]));
    assert_eq!(o[0], "Add a comment to an issue");
}

#[test]
fn taxonomy_labels() {
    assert!(is_commit_type("Star: New feature or enhancement"));
    assert!(!is_commit_type("Star"));
}
