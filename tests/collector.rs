use commit_guide::collector::{get_scope, get_summary, get_why, Action, Event, FieldCollector, FieldRules, Phase};

fn entered(t: &str) -> Event {
    Event::Entered(t.to_string())
}

/// Feeds a value that passes the spell checker, and returns the action after the
/// report.
fn enter_clean(c: &mut FieldCollector, t: &str) -> Action {
    match c.step(entered(t)) {
        Action::CheckSpelling(x) => assert_eq!(x, t),
        _ => panic!("expected a spell check"),
    }
    c.step(Event::SpellReport(String::new()))
}

#[test]
fn declines_then_accept() {
    let mut c = get_scope();
    for n in 0..5 {
        let value = format!("scope{n}");
        match enter_clean(&mut c, &value) {
            Action::Confirm(x) => assert_eq!(x, value),
            _ => panic!("expected a confirmation"),
        }
        match c.step(Event::Answered(false)) {
            Action::Ask { too_long } => assert!(!too_long),
            _ => panic!("a decline must ask again"),
        }
        assert!(c.accepted().is_none());
    }
    enter_clean(&mut c, "core");
    match c.step(Event::Answered(true)) {
        Action::Accept(x) => assert_eq!(x, "core"),
        _ => panic!("an accept must end the collection"),
    }
    assert_eq!(c.accepted(), Some("core".to_string()));
}

#[test]
fn scope_length_bounds() {
    let mut c = get_scope();
    match c.step(entered("")) {
        Action::Ask { too_long } => assert!(!too_long),
        _ => panic!(),
    }
    match c.step(entered(&"a".repeat(21))) {
        Action::Ask { too_long } => assert!(too_long),
        _ => panic!(),
    }
    assert!(matches!(c.step(entered(&"a".repeat(20))), Action::CheckSpelling(_)));
    let mut c = get_scope();
    assert!(matches!(c.step(entered("a")), Action::CheckSpelling(_)));
}

#[test]
fn summary_length_bounds() {
    for make in [get_summary, get_why] {
        let mut c = make();
        match c.step(entered(&"b".repeat(51))) {
            Action::Ask { too_long } => assert!(too_long),
            _ => panic!(),
        }
        assert!(matches!(c.step(entered(&"b".repeat(50))), Action::CheckSpelling(_)));
        let mut c = make();
        assert!(matches!(c.step(entered("b")), Action::CheckSpelling(_)));
        let mut c = make();
        assert!(matches!(c.step(entered("")), Action::Ask { too_long: false }));
    }
}

#[test]
fn misspelled_text_goes_to_correction() {
    let mut c = get_summary();
    c.step(entered("teh fix"));
    match c.step(Event::SpellReport("teh\n".to_string())) {
        Action::Correct(x) => assert_eq!(x, "teh fix"),
        _ => panic!("expected a correction"),
    }
    match c.step(Event::Corrected("the fix".to_string())) {
        Action::CheckSpelling(x) => assert_eq!(x, "the fix"),
        _ => panic!("a corrected text is checked again"),
    }
    match c.step(Event::SpellReport(String::new())) {
        Action::Confirm(x) => assert_eq!(x, "the fix"),
        _ => panic!(),
    }
    match c.step(Event::Answered(true)) {
        Action::Accept(x) => assert_eq!(x, "the fix"),
        _ => panic!(),
    }
}

#[test]
fn corrected_text_is_bounded_again() {
    let mut c = get_scope();
    c.step(entered("teh"));
    c.step(Event::SpellReport("teh".to_string()));
    match c.step(Event::Corrected("x".repeat(25))) {
        Action::Ask { too_long } => assert!(too_long),
        _ => panic!(),
    }
}

#[test]
fn unexpected_event_changes_nothing() {
    let mut c = get_scope();
    assert!(matches!(c.step(Event::Answered(true)), Action::Ask { too_long: false }));
    assert!(matches!(c.phase, Phase::Prompting));
    c.step(entered("core"));
    match c.step(Event::Answered(true)) {
        Action::CheckSpelling(x) => assert_eq!(x, "core"),
        _ => panic!(),
    }
}

#[test]
fn rules_without_checks() {
    let mut c = FieldCollector::new(FieldRules { max_len: None, spell_check: false, confirm: false });
    match c.step(entered(&"n".repeat(300))) {
        Action::Accept(x) => assert_eq!(x.len(), 300),
        _ => panic!(),
    }
    let mut c = FieldCollector::new(FieldRules { max_len: None, spell_check: false, confirm: true });
    assert!(matches!(c.step(entered("desc")), Action::Confirm(_)));
}

#[test]
fn summary_declined_n_times() {
    for n in 0..4 {
        let mut c = get_summary();
        for k in 0..n {
            let v = format!("try {k}");
            enter_clean(&mut c, &v);
            assert!(matches!(c.step(Event::Answered(false)), Action::Ask { too_long: false }));
            assert!(c.accepted().is_none());
        }
        enter_clean(&mut c, "final words");
        match c.step(Event::Answered(true)) {
            Action::Accept(x) => assert_eq!(x, "final words"),
            _ => panic!(),
        }
    }
}
