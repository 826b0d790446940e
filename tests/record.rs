use commit_guide::date::Date;
use commit_guide::record::{get_footer, kind_of_label, render, Authorship, ChangeRecord};

fn s(x: &str) -> String {
    x.to_string()
}

fn sample() -> ChangeRecord {
    ChangeRecord::new(s("Star"), s("core"), s("add x"), vec![s("because")], s("")).unwrap()
}

fn author() -> Authorship {
    Authorship { name: s("A"), email: s("a@b.c"), date: Date::new(2024, 1, 1).unwrap() }
}

#[test]
fn template_literal_fidelity() {
    let text = render(&sample(), &author());
    assert_eq!(
        text,
        "Star(core): add x\n\n\tThe following changes were made :\n\n\t\t* because\n\n\n\n\tAuthored by :\n\n\t\t* A <a@b.c> the 2024-01-01\n"
    );
}

#[test]
fn render_is_deterministic() {
    let a = render(&sample(), &author());
    let b = render(&sample(), &author());
    assert_eq!(a, b);
}

#[test]
fn render_keeps_rationale_order() {
    let r = ChangeRecord::new(
        s("Comet"),
        s("parser"),
        s("fix crash"),
        vec![s("first"), s("second")],
        s("\n\tFixes #3\n"),
    )
    .unwrap();
    let author = Authorship { name: s("Bo"), email: s("bo@x.org"), date: Date::new(2023, 12, 31).unwrap() };
    assert_eq!(
        render(&r, &author),
        "Comet(parser): fix crash\n\n\tThe following changes were made :\n\n\t\t* first\n\t\t* second\n\n\n\tFixes #3\n\n\n\tAuthored by :\n\n\t\t* Bo <bo@x.org> the 2023-12-31\n"
    );
}

#[test]
fn record_bounds() {
    let ok = |scope: &str, summary: &str| {
        ChangeRecord::new(s("Star"), s(scope), s(summary), vec![s("why")], s("")).is_some()
    };
    assert!(!ok("", "x"));
    assert!(ok("a", "x"));
    assert!(ok(&"a".repeat(20), "x"));
    assert!(!ok(&"a".repeat(21), "x"));
    assert!(!ok("a", ""));
    assert!(ok("a", &"b".repeat(50)));
    assert!(!ok("a", &"b".repeat(51)));
    assert!(ChangeRecord::new(s(""), s("a"), s("b"), vec![s("c")], s("")).is_none());
    assert!(ChangeRecord::new(s("Star"), s("a"), s("b"), vec![], s("")).is_none());
    assert!(ChangeRecord::new(s("Star"), s("a"), s("b"), vec![s("c"), s("")], s("")).is_none());
    assert!(ChangeRecord::new(s("Star"), s("a"), s("b"), vec![s(&"c".repeat(51))], s("")).is_none());
    assert!(ChangeRecord::new(s("Star"), s("a"), s("b"), vec![s(&"c".repeat(50))], s("")).is_some());
}

#[test]
fn scope_counts_characters() {
    let scope = "é".repeat(20);
    assert!(ChangeRecord::new(s("Star"), scope, s("x"), vec![s("why")], s("")).is_some());
}

#[test]
fn built_record_has_rationale() {
    let r = sample();
    assert!(r.rationale().len() >= 1);
    assert_eq!(r.kind(), "Star");
    assert_eq!(r.scope(), "core");
    assert_eq!(r.summary(), "add x");
    assert_eq!(r.footer(), "");
}

#[test]
fn footer_sections() {
    assert_eq!(get_footer(None, &vec![], &vec![]), "");
    assert_eq!(get_footer(Some("api changed"), &vec![], &vec![]), "BREAKING CHANGE: api changed");
    assert_eq!(
        get_footer(Some("x"), &vec![s("1"), s("2")], &vec![s("7")]),
        "BREAKING CHANGE: x\n\tFixes #1\n\n\tFixes #2\n\n\tCloses #7\n"
    );
}

#[test]
fn kind_from_label() {
    assert_eq!(kind_of_label("Star: New feature or enhancement"), "Star");
    assert_eq!(kind_of_label("Asteroid Belt: Code cleanup and maintenance"), "Asteroid Belt");
    assert_eq!(kind_of_label("Plain"), "Plain");
    assert_eq!(kind_of_label(":x"), "");
}

#[test]
fn dates() {
    assert_eq!(Date::new(2024, 2, 29).unwrap().to_text(), "2024-02-29");
    assert!(Date::new(2023, 2, 29).is_none());
    assert!(Date::new(1900, 2, 29).is_none());
    assert!(Date::new(2000, 2, 29).is_some());
    assert!(Date::new(2024, 4, 31).is_none());
    assert!(Date::new(2024, 13, 1).is_none());
    assert!(Date::new(2024, 0, 1).is_none());
    assert!(Date::new(2024, 1, 0).is_none());
    assert!(Date::new(10000, 1, 1).is_none());
    assert!(Date::new(-1, 1, 1).is_none());
    assert_eq!(Date::new(7, 3, 9).unwrap().to_text(), "0007-03-09");
    assert_eq!(Date::new(9999, 12, 31).unwrap().to_text(), "9999-12-31");
}

#[test]
fn kind_must_be_in_taxonomy() {
    assert!(ChangeRecord::new(s("Nova"), s("a"), s("b"), vec![s("c")], s("")).is_none());
    assert!(ChangeRecord::new(s("Asteroid Belt"), s("a"), s("b"), vec![s("c")], s("")).is_some());
    assert!(commit_guide::record::is_kind("Big Crunch"));
    assert!(!commit_guide::record::is_kind("Star: New feature or enhancement"));
}
