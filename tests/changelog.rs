use commit_guide::changelog::{
    changelog_file_name, create_changelog, demote_headings, header, history, join, line_entries_of,
    message_entries, program_or_lib, ProjectInfo,
};
use commit_guide::date::Date;
use commit_guide::text::{contains, split_lines, strip_stars, trim};

fn s(x: &str) -> String {
    x.to_string()
}

#[test]
fn star_and_at_line_emitted_by_each_rule() {
    assert_eq!(
        line_entries_of("\t\t* fix by @alice"),
        vec![s("\t\t- fix by @alice"), s("\t- fix by @alice"), s("\t\t- fix by @alice")]
    );
}

#[test]
fn line_rules() {
    assert_eq!(line_entries_of("Star(core): add x"), vec![s("- Star(core): add x")]);
    assert_eq!(
        line_entries_of("\tThe following changes were made :"),
        vec![s("\t- The following changes were made :")]
    );
    assert_eq!(line_entries_of("\t\t* because"), vec![s("\t\t- because")]);
    assert_eq!(line_entries_of("\tAuthored by :"), vec![s("\t- Authored by :")]);
    assert_eq!(line_entries_of("\tCloses #7"), vec![s("\t\t- Closes #7")]);
    assert!(line_entries_of("   \t ").is_empty());
    assert!(line_entries_of("").is_empty());
    assert!(line_entries_of("plain words").is_empty());
}

#[test]
fn rendered_message_entries() {
    let message = "Star(core): add x\n\n\tThe following changes were made :\n\n\t\t* because\n\n\n\n\tAuthored by :\n\n\t\t* A <a@b.c> the 2024-01-01\n";
    assert_eq!(
        message_entries(message),
        vec![
            s("- Star(core): add x"),
            s("\t- The following changes were made :"),
            s("\t\t- because"),
            s("\t- Authored by :"),
            s("\t\t- A <a@b.c> the 2024-01-01"),
            s("\t\t- A <a@b.c> the 2024-01-01"),
        ]
    );
}

#[test]
fn history_keeps_order() {
    let messages = vec![s("Comet(b): two"), s("Star(a): one\r\n")];
    assert_eq!(history(&messages), vec![s("- Comet(b): two"), s("- Star(a): one")]);
    assert!(history(&vec![]).is_empty());
}

#[test]
fn text_helpers() {
    assert_eq!(trim("  \t a b \n\r"), "a b");
    assert_eq!(trim("\u{3000}x\u{a0}"), "x");
    assert_eq!(trim(""), "");
    assert_eq!(strip_stars("**a*b*"), "ab");
    assert!(contains("abc", "bc"));
    assert!(contains("abc", ""));
    assert!(!contains("ab", "abc"));
    assert!(!contains("abc", "ca"));
    assert_eq!(split_lines("a\nb\n"), vec![s("a"), s("b"), s("")]);
    assert_eq!(split_lines(""), vec![s("")]);
}

#[test]
fn document_pieces() {
    assert_eq!(demote_headings("# Title\n## Sub"), "## Title\n### Sub");
    assert_eq!(demote_headings("## Usage"), "### Usage");
    assert_eq!(demote_headings("see issue #4\n#x"), "see issue #4\n##x");
    assert_eq!(demote_headings(""), "");
    assert_eq!(join(&vec![s("a"), s("b"), s("c")], "\n- "), "a\n- b\n- c");
    assert_eq!(join(&vec![], ", "), "");
    assert_eq!(program_or_lib("[lib]\nname = \"x\""), "library");
    assert_eq!(program_or_lib("[package]\nname = \"x\""), "software");
    assert_eq!(changelog_file_name("zuu", "1.2.0"), "zuu-1.2.0-changes.md");
}

fn info() -> ProjectInfo {
    ProjectInfo {
        name: s("demo"),
        version: s("1.0.0"),
        description: s("a demo"),
        keywords: vec![s("cli"), s("git")],
        authors: vec![s("Ann")],
        repository: s("https://github.com/org/demo"),
        homepage: s("https://demo.org"),
    }
}

#[test]
fn changelog_header() {
    let h = header(&info(), "[package]", &Date::new(2024, 5, 6).unwrap());
    let expected = "# \u{1f680} demo 1.0.0 released\n\nToday the `2024-05-06`, we are very happy to present the **1.0.0** version of our `demo` software !\n\nThis release marks a significant step forward for our software demo.\n\n## Demonstration\n\ndemo\n\n## What it's?\n\nIt's a demo\n\n## What we do ?\n\n- cli\n- git\n\n## Our team\n\n- Ann\n\n## Links\n\n- [Source code](https://github.com/org/demo)\n- [Home](https://demo.org)\n- [Issues](https://github.com/org/demo/issues)\n- [Pull Request](https://github.com/org/demo/pulls)\n- [Discussions](https://github.com/org/demo/discussions)\n- [Wiki](https://github.com/org/demo/wiki)\n- [Projects](https://github.com/org/demo/projects)\n- [Releases](https://github.com/org/demo/releases)\n- [Crates.io](https://crates.io/crates/demo/1.0.0)\n\n";
    assert_eq!(h, expected);
}

#[test]
fn whole_changelog() {
    let date = Date::new(2024, 5, 6).unwrap();
    let doc = create_changelog(
        &info(),
        "[lib]",
        &date,
        &vec![s("Star(a): one")],
        "\n# Demo\ntext\n",
        "  MIT License  \n",
    );
    let head = header(&info(), "[lib]", &date);
    assert!(head.contains("our `demo` library !"));
    assert_eq!(doc, format!("{head}- Star(a): one\n\n\n## Demo\ntext\n\n```\nMIT License\n```\n\n"));
}
