use commit_guide::links::{discussions, issues, projects, pulls_request, releases, wiki};

#[test]
fn github_links() {
    let r = "https://github.com/org/repo";
    assert_eq!(issues(r), "https://github.com/org/repo/issues");
    assert_eq!(wiki(r), "https://github.com/org/repo/wiki");
    assert_eq!(projects(r), "https://github.com/org/repo/projects");
    assert_eq!(pulls_request(r), "https://github.com/org/repo/pulls");
    assert_eq!(discussions(r), "https://github.com/org/repo/discussions");
    assert_eq!(releases(r), "https://github.com/org/repo/releases");
}

#[test]
fn gitlab_links() {
    let r = "https://gitlab.com/org/repo";
    assert_eq!(issues(r), "https://gitlab.com/org/repo/-/issues");
    assert_eq!(wiki(r), "https://gitlab.com/org/repo/-/wikis");
    assert_eq!(pulls_request(r), "https://gitlab.com/org/repo/-/merge_requests");
    assert_eq!(releases(r), "https://gitlab.com/org/repo/-/tags");
    assert_eq!(projects(r), r);
    assert_eq!(discussions(r), r);
}

#[test]
fn other_host_links_unchanged() {
    let r = "https://example.org/org/repo";
    for f in [issues, wiki, projects, pulls_request, discussions, releases] {
        assert_eq!(f(r), r);
    }
}
